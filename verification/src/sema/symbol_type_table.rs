//! The scoped symbol table: a stack of scopes, each a mapping from name
//! to declared type, unique keys within one scope. Declaring an
//! already-bound name is rejected and the existing binding is kept.

use vstd::prelude::*;

use crate::error_handler::zast_errors::{ZastError, ZastErrorV};
use crate::tokens::{str_eq, Span};
use crate::types::{ValueType, ValueTypeV};

verus! {

/// A declared symbol: its resolved type and the site of its
/// declaration, kept so a redeclaration can cite it.
#[derive(Debug)]
pub struct SymbolType {
    pub value_type: ValueType,
    pub span: Span,
}

/// The spec-level value of a [`SymbolType`].
pub struct SymbolTypeV {
    pub value_type: ValueTypeV,
    pub span: Span,
}

impl View for SymbolType {
    type V = SymbolTypeV;

    open spec fn view(&self) -> SymbolTypeV {
        SymbolTypeV { value_type: self.value_type@, span: self.span }
    }
}

/// The mapping an entry sequence denotes, later entries inserted later.
/// With unique keys the order never matters.
pub open spec fn entries_map(es: Seq<(String, SymbolType)>) -> Map<Seq<char>, SymbolTypeV>
    decreases es.len(),
{
    if es.len() == 0 {
        Map::<Seq<char>, SymbolTypeV>::empty()
    } else {
        entries_map(es.drop_last()).insert(es.last().0@, es.last().1@)
    }
}

/// Whether no two entries share a name.
pub open spec fn entries_unique(es: Seq<(String, SymbolType)>) -> bool {
    forall|i: int, j: int| 0 <= i < j < es.len() ==> (#[trigger] es[i]).0@ != (#[trigger] es[j]).0@
}

/// A name is in the mapping exactly when some entry carries it.
pub proof fn lemma_entries_map_contains(es: Seq<(String, SymbolType)>, k: Seq<char>)
    ensures
        entries_map(es).contains_key(k) <==> exists|i: int|
            0 <= i < es.len() && (#[trigger] es[i]).0@ == k,
    decreases es.len(),
{
    if es.len() > 0 {
        lemma_entries_map_contains(es.drop_last(), k);
        if entries_map(es).contains_key(k) {
            if es.last().0@ != k {
                let i = choose|i: int| 0 <= i < es.len() - 1 && (#[trigger] es.drop_last()[i]).0@
                    == k;
                assert(es[i].0@ == k);
            }
        }
        if exists|i: int| 0 <= i < es.len() && (#[trigger] es[i]).0@ == k {
            let i = choose|i: int| 0 <= i < es.len() && (#[trigger] es[i]).0@ == k;
            if i < es.len() - 1 {
                assert(es.drop_last()[i].0@ == k);
            }
        }
    }
}

/// Under unique names, each entry is what the mapping holds at its name.
pub proof fn lemma_entries_map_get(es: Seq<(String, SymbolType)>, i: int)
    requires
        entries_unique(es),
        0 <= i < es.len(),
    ensures
        entries_map(es).contains_key(es[i].0@),
        entries_map(es)[es[i].0@] == es[i].1@,
    decreases es.len(),
{
    if i == es.len() - 1 {
    } else {
        lemma_entries_map_get(es.drop_last(), i);
        assert(es.drop_last()[i] == es[i]);
        assert(es.last().0@ != es[i].0@);
    }
}

/// One scope of the symbol table.
#[derive(Debug)]
pub struct SymbolTypeScope {
    symbols: Vec<(String, SymbolType)>,
    symbol_count: usize,
}

impl View for SymbolTypeScope {
    type V = Map<Seq<char>, SymbolTypeV>;

    closed spec fn view(&self) -> Map<Seq<char>, SymbolTypeV> {
        entries_map(self.symbols@)
    }
}

impl SymbolTypeScope {
    /// A scope's names are unique and its count is its size.
    pub closed spec fn wf(&self) -> bool {
        entries_unique(self.symbols@) && self.symbol_count == self.symbols@.len()
    }

    /// An empty scope.
    pub fn new() -> (r: Self)
        ensures
            r.wf(),
            r@ == Map::<Seq<char>, SymbolTypeV>::empty(),
    {
        SymbolTypeScope { symbols: Vec::new(), symbol_count: 0 }
    }

    /// The entry bound to `identifier`, if the scope has one.
    pub fn get_ident_type(&self, identifier: &str) -> (r: Option<&SymbolType>)
        requires
            self.wf(),
        ensures
            match r {
                Some(s) => self@.contains_key(identifier@) && s@ == self@[identifier@],
                None => !self@.contains_key(identifier@),
            },
    {
        let mut i: usize = 0;
        while i < self.symbols.len()
            invariant
                0 <= i <= self.symbols@.len(),
                self.wf(),
                forall|j: int| 0 <= j < i ==> (#[trigger] self.symbols@[j]).0@ != identifier@,
            decreases self.symbols@.len() - i,
        {
            if str_eq(self.symbols[i].0.as_str(), identifier) {
                proof {
                    lemma_entries_map_get(self.symbols@, i as int);
                }
                return Some(&self.symbols[i].1);
            }
            i = i + 1;
        }
        proof {
            lemma_entries_map_contains(self.symbols@, identifier@);
        }
        None
    }

    /// Declares `identifier` in this scope. A name already bound here
    /// is rejected with a `VariableRedeclaration` citing the original
    /// declaration's site; the existing binding is kept and the new one
    /// is not installed.
    pub fn declare_ident_type(&mut self, identifier: String, value_type: ValueType, span: Span)
        -> (r: Result<(), ZastError>)
        requires
            old(self).wf(),
        ensures
            final(self).wf(),
            match r {
                Ok(()) => !old(self)@.contains_key(identifier@) && final(self)@ == old(
                    self,
                )@.insert(
                    identifier@,
                    SymbolTypeV { value_type: value_type@, span },
                ),
                Err(e) => old(self)@.contains_key(identifier@) && final(self)@ == old(self)@
                    && e@ == (ZastErrorV::VariableRedeclaration {
                    span,
                    variable_name: identifier@,
                    original_span: old(self)@[identifier@].span,
                }),
            },
    {
        match self.get_ident_type(identifier.as_str()) {
            Some(original) => {
                let original_span = original.span;
                Err(
                    ZastError::VariableRedeclaration {
                        span,
                        variable_name: identifier,
                        original_span,
                    },
                )
            },
            None => {
                self.insert_symbol(identifier, SymbolType { value_type, span });
                Ok(())
            },
        }
    }

    /// Declares `identifier` as a function of the given signature in
    /// this scope; a name already bound here is rejected with a
    /// `FunctionRedeclaration` citing the original declaration's site.
    pub fn declare_function_type(
        &mut self,
        identifier: String,
        params: Vec<ValueType>,
        return_type: ValueType,
        span: Span,
    ) -> (r: Result<(), ZastError>)
        requires
            old(self).wf(),
        ensures
            final(self).wf(),
            match r {
                Ok(()) => !old(self)@.contains_key(identifier@) && final(self)@ == old(
                    self,
                )@.insert(
                    identifier@,
                    SymbolTypeV {
                        value_type: ValueTypeV::Function {
                            params: crate::types::value_types_view(params@),
                            return_type: Box::new(return_type@),
                        },
                        span,
                    },
                ),
                Err(e) => old(self)@.contains_key(identifier@) && final(self)@ == old(self)@
                    && e@ == (ZastErrorV::FunctionRedeclaration {
                    span,
                    fn_name: identifier@,
                    original_span: old(self)@[identifier@].span,
                }),
            },
    {
        let symbol_type = SymbolType {
            value_type: ValueType::Function { params, return_type: Box::new(return_type) },
            span,
        };
        match self.get_ident_type(identifier.as_str()) {
            Some(original) => {
                let original_span = original.span;
                Err(
                    ZastError::FunctionRedeclaration { span, fn_name: identifier, original_span },
                )
            },
            None => {
                self.insert_symbol(identifier, symbol_type);
                Ok(())
            },
        }
    }

    /// Installs a binding for a name this scope does not hold yet.
    fn insert_symbol(&mut self, identifier: String, symbol: SymbolType)
        requires
            old(self).wf(),
            !old(self)@.contains_key(identifier@),
        ensures
            final(self).wf(),
            final(self)@ == old(self)@.insert(identifier@, symbol@),
    {
        proof {
            lemma_entries_map_contains(self.symbols@, identifier@);
        }
        let ghost prev = self.symbols@;
        self.symbols.push((identifier, symbol));
        self.symbol_count = self.symbols.len();
        proof {
            assert(self.symbols@.drop_last() =~= prev);
            assert(forall|j: int| 0 <= j < prev.len() ==> (#[trigger] prev[j])
                == self.symbols@[j]);
        }
    }
}

/// The stack of scopes: index zero is the outermost (program) scope.
#[derive(Debug)]
pub struct ZastSymbolTypeTable {
    scopes: Vec<SymbolTypeScope>,
    scope_depth: usize,
}

impl View for ZastSymbolTypeTable {
    type V = Seq<Map<Seq<char>, SymbolTypeV>>;

    closed spec fn view(&self) -> Seq<Map<Seq<char>, SymbolTypeV>> {
        self.scopes@.map_values(|s: SymbolTypeScope| s@)
    }
}

/// The binding a name resolves to: the innermost scope that holds it
/// wins.
pub open spec fn spec_resolve(stack: Seq<Map<Seq<char>, SymbolTypeV>>, name: Seq<char>) -> Option<
    SymbolTypeV,
>
    decreases stack.len(),
{
    if stack.len() == 0 {
        Option::<SymbolTypeV>::None
    } else if stack.last().contains_key(name) {
        Some(stack.last()[name])
    } else {
        spec_resolve(stack.drop_last(), name)
    }
}

impl ZastSymbolTypeTable {
    /// Every scope well formed, and at least the program scope present.
    pub closed spec fn wf(&self) -> bool {
        &&& self.scopes@.len() >= 1
        &&& self.scope_depth == self.scopes@.len() - 1
        &&& forall|i: int| 0 <= i < self.scopes@.len() ==> (#[trigger] self.scopes@[i]).wf()
    }

    /// A table holding one empty program scope.
    pub fn new() -> (r: Self)
        ensures
            r.wf(),
            r@ =~= seq![Map::<Seq<char>, SymbolTypeV>::empty()],
    {
        let mut scopes = Vec::new();
        scopes.push(SymbolTypeScope::new());
        ZastSymbolTypeTable { scopes, scope_depth: 0 }
    }

    /// Declares an identifier in the innermost scope alone.
    pub fn declare_ident_type(&mut self, identifier: String, value_type: ValueType, span: Span)
        -> (r: Result<(), ZastError>)
        requires
            old(self).wf(),
        ensures
            final(self).wf(),
            final(self)@.len() == old(self)@.len(),
            match r {
                Ok(()) => !old(self)@.last().contains_key(identifier@) && final(self)@ == old(
                    self,
                )@.update(
                    old(self)@.len() - 1,
                    old(self)@.last().insert(
                        identifier@,
                        SymbolTypeV { value_type: value_type@, span },
                    ),
                ),
                Err(e) => old(self)@.last().contains_key(identifier@) && final(self)@ == old(
                    self,
                )@ && e@ == (ZastErrorV::VariableRedeclaration {
                    span,
                    variable_name: identifier@,
                    original_span: old(self)@.last()[identifier@].span,
                }),
            },
    {
        let idx = self.scope_depth;
        proof {
            assert(self@[idx as int] == self.scopes@[idx as int]@);
        }
        let r = self.scopes[idx].declare_ident_type(identifier, value_type, span);
        proof {
            assert(final(self)@ =~= if r is Ok {
                old(self)@.update(old(self)@.len() - 1, final(self)@.last())
            } else {
                old(self)@
            });
        }
        r
    }

    /// Declares a function in the innermost scope alone.
    pub fn declare_function_type(
        &mut self,
        identifier: String,
        params: Vec<ValueType>,
        return_type: ValueType,
        span: Span,
    ) -> (r: Result<(), ZastError>)
        requires
            old(self).wf(),
        ensures
            final(self).wf(),
            final(self)@.len() == old(self)@.len(),
            match r {
                Ok(()) => !old(self)@.last().contains_key(identifier@) && final(self)@ == old(
                    self,
                )@.update(
                    old(self)@.len() - 1,
                    old(self)@.last().insert(
                        identifier@,
                        SymbolTypeV {
                            value_type: ValueTypeV::Function {
                                params: crate::types::value_types_view(params@),
                                return_type: Box::new(return_type@),
                            },
                            span,
                        },
                    ),
                ),
                Err(e) => old(self)@.last().contains_key(identifier@) && final(self)@ == old(
                    self,
                )@ && e@ == (ZastErrorV::FunctionRedeclaration {
                    span,
                    fn_name: identifier@,
                    original_span: old(self)@.last()[identifier@].span,
                }),
            },
    {
        let idx = self.scope_depth;
        proof {
            assert(self@[idx as int] == self.scopes@[idx as int]@);
        }
        let r = self.scopes[idx].declare_function_type(identifier, params, return_type, span);
        proof {
            assert(final(self)@ =~= if r is Ok {
                old(self)@.update(old(self)@.len() - 1, final(self)@.last())
            } else {
                old(self)@
            });
        }
        r
    }

    /// Resolves a name, searching scopes from innermost to outermost.
    pub fn resolve_ident_type(&self, identifier: &str) -> (r: Option<&SymbolType>)
        requires
            self.wf(),
        ensures
            match r {
                Some(s) => spec_resolve(self@, identifier@) == Some(s@),
                None => spec_resolve(self@, identifier@) is None,
            },
    {
        let ghost stack = self@;
        let mut i: usize = self.scopes.len();
        proof {
            assert(stack.take(i as int) =~= stack);
        }
        while i > 0
            invariant
                0 <= i <= self.scopes@.len(),
                self.wf(),
                stack == self@,
                spec_resolve(stack.take(i as int), identifier@) == spec_resolve(
                    stack,
                    identifier@,
                ),
            decreases i,
        {
            i = i - 1;
            proof {
                assert(stack.take(i + 1).last() == stack[i as int]);
                assert(stack.take(i + 1).drop_last() =~= stack.take(i as int));
                assert(self@[i as int] == self.scopes@[i as int]@);
            }
            match self.scopes[i].get_ident_type(identifier) {
                Some(t) => {
                    return Some(t);
                },
                None => {},
            }
        }
        proof {
            assert(stack.take(0) =~= Seq::<Map<Seq<char>, SymbolTypeV>>::empty());
        }
        None
    }

    /// Pushes a fresh empty scope.
    pub fn enter_scope(&mut self)
        requires
            old(self).wf(),
        ensures
            final(self).wf(),
            final(self)@ == old(self)@.push(Map::<Seq<char>, SymbolTypeV>::empty()),
    {
        let ghost prev = self.scopes@;
        self.scopes.push(SymbolTypeScope::new());
        let n = self.scopes.len();
        self.scope_depth = n - 1;
        proof {
            assert(final(self)@ =~= old(self)@.push(Map::<Seq<char>, SymbolTypeV>::empty()));
        }
    }

    /// Pops and discards the innermost scope with everything declared
    /// in it; nothing escapes to the outer scope.
    pub fn exit_scope(&mut self)
        requires
            old(self).wf(),
            old(self)@.len() >= 2,
        ensures
            final(self).wf(),
            final(self)@ == old(self)@.drop_last(),
    {
        let _ = self.scopes.pop();
        self.scope_depth = self.scope_depth - 1;
        proof {
            assert(final(self)@ =~= old(self)@.drop_last());
        }
    }

    /// How many scopes are open.
    pub fn depth(&self) -> (r: usize)
        requires
            self.wf(),
        ensures
            r == self@.len(),
    {
        let n = self.scopes.len();
        proof {
            assert(self@.len() == self.scopes@.len());
        }
        n
    }
}

} // verus!

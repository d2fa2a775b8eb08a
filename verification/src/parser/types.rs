//! Parsing type annotations: pointer types, primitive names, and the
//! return type position.

use vstd::prelude::*;

use crate::error_handler::zast_errors::{Expected, ExpectedV, ZastError};
use crate::parser::grammar::{kind_at, spec_parse_return_type, spec_parse_value_type, tok_at};
use crate::parser::ZastParser;
use crate::tokens::{str_eq, TokenKind};
use crate::types::annotated_type::{AnnotatedType, AnnotatedTypeV};
use crate::types::return_type::{ReturnType, ReturnTypeV};

verus! {

/// Whether a returned annotation agrees with a model result.
pub open spec fn opt_type_agrees(r: Option<AnnotatedType>, m: Option<AnnotatedTypeV>) -> bool {
    match r {
        Some(t) => m matches Some(v) && t@ == v,
        None => m is None,
    }
}

/// Whether a returned return type agrees with a model result.
pub open spec fn opt_return_type_agrees(r: Option<ReturnType>, m: Option<ReturnTypeV>) -> bool {
    match r {
        Some(t) => m matches Some(v) && t@ == v,
        None => m is None,
    }
}

impl ZastParser {
    /// Parses a return type annotation. `void` is a reserved identifier
    /// rather than a keyword; any other identifier parses as a value
    /// type. A position without an identifier literal fails silently —
    /// a quirk kept from the grammar: a pointer return type is not
    /// accepted, and this path records no diagnostic.
    pub(crate) fn try_parse_return_type(&mut self) -> (r: Option<ReturnType>)
        requires
            old(self).wf(),
        ensures
            final(self).wf(),
            final(self).toks() == old(self).toks(),
            final(self).pos() >= old(self).pos(),
            r is Some ==> final(self).pos() > old(self).pos(),
            ({
                let o = spec_parse_return_type(old(self).toks(), old(self).pos());
                &&& final(self).pos() == o.pos
                &&& final(self).errs() == old(self).errs() + o.errs
                &&& opt_return_type_agrees(r, o.res)
            }),
        decreases old(self).toks().len() - old(self).pos(), 7int,
    {
        let return_type_str = match self.current_token().literal.get_identifier() {
            Some(s) => s,
            None => {
                proof {
                    assert(final(self).errs() =~= old(self).errs() + spec_parse_return_type(
                        old(self).toks(),
                        old(self).pos(),
                    ).errs);
                }
                return None;
            },
        };

        if str_eq(return_type_str.as_str(), "void") {
            self.advance();
            proof {
                assert(final(self).errs() =~= old(self).errs() + spec_parse_return_type(
                    old(self).toks(),
                    old(self).pos(),
                ).errs);
            }
            return Some(ReturnType::Void);
        }

        let return_type = match self.try_parse_value_type() {
            Some(t) => t,
            None => {
                return None;
            },
        };
        Some(ReturnType::Type(return_type))
    }

    /// Parses a value type annotation: `*` opens a pointer type, an
    /// identifier is a primitive name, and anything else records an
    /// `ExpectedToken` diagnostic naming the "type annotation" concept.
    pub(crate) fn try_parse_value_type(&mut self) -> (r: Option<AnnotatedType>)
        requires
            old(self).wf(),
        ensures
            final(self).wf(),
            final(self).toks() == old(self).toks(),
            final(self).pos() >= old(self).pos(),
            r is Some ==> final(self).pos() > old(self).pos(),
            ({
                let o = spec_parse_value_type(old(self).toks(), old(self).pos());
                &&& final(self).pos() == o.pos
                &&& final(self).errs() == old(self).errs() + o.errs
                &&& opt_type_agrees(r, o.res)
            }),
        decreases old(self).toks().len() - old(self).pos(), 6int,
    {
        match self.current_token_kind() {
            TokenKind::Multiply => self.parse_pointer_type(),
            TokenKind::Identifier => self.parse_primitive_type(),
            _ => {
                let cur_span = self.current_token().span;
                let cur_kind = self.current_token_kind();
                let expected = vec![Expected::Concept("type annotation")];
                proof {
                    assert(expected@.map_values(|e: Expected| e@) =~= seq![ExpectedV::Concept(
                        "type annotation"@,
                    )]);
                }
                self.throw_error(
                    ZastError::ExpectedToken {
                        span: cur_span,
                        expected_tokens: expected,
                        found_token: cur_kind,
                    },
                );
                proof {
                    assert(final(self).errs() =~= old(self).errs() + spec_parse_value_type(
                        old(self).toks(),
                        old(self).pos(),
                    ).errs);
                }
                None
            },
        }
    }

    /// Parses a pointer type annotation: the `*` consumed, then the
    /// pointee type, to arbitrary depth.
    pub(crate) fn parse_pointer_type(&mut self) -> (r: Option<AnnotatedType>)
        requires
            old(self).wf(),
            kind_at(old(self).toks(), old(self).pos()) == TokenKind::Multiply,
        ensures
            final(self).wf(),
            final(self).toks() == old(self).toks(),
            final(self).pos() >= old(self).pos(),
            r is Some ==> final(self).pos() > old(self).pos(),
            ({
                let o = spec_parse_value_type(old(self).toks(), old(self).pos());
                &&& final(self).pos() == o.pos
                &&& final(self).errs() == old(self).errs() + o.errs
                &&& opt_type_agrees(r, o.res)
            }),
        decreases old(self).toks().len() - old(self).pos(), 5int,
    {
        let pos_before = self.cursor();
        self.advance();
        if self.cursor() == pos_before {
            // the cursor already stood on the last token: no pointee
            proof {
                assert(final(self).errs() =~= old(self).errs() + spec_parse_value_type(
                    old(self).toks(),
                    old(self).pos(),
                ).errs);
            }
            return None;
        }
        let inner = match self.try_parse_value_type() {
            Some(t) => t,
            None => {
                return None;
            },
        };
        Some(AnnotatedType::Pointer(Box::new(inner)))
    }

    /// Parses a primitive type annotation: the identifier consumed and
    /// kept as a name, resolved only later by the analyzer.
    pub(crate) fn parse_primitive_type(&mut self) -> (r: Option<AnnotatedType>)
        requires
            old(self).wf(),
            kind_at(old(self).toks(), old(self).pos()) == TokenKind::Identifier,
        ensures
            final(self).wf(),
            final(self).toks() == old(self).toks(),
            final(self).pos() > old(self).pos(),
            r is Some,
            ({
                let o = spec_parse_value_type(old(self).toks(), old(self).pos());
                &&& final(self).pos() == o.pos
                &&& final(self).errs() == old(self).errs() + o.errs
                &&& opt_type_agrees(r, o.res)
            }),
    {
        let primitive = self.current_token().literal.get_identifier().unwrap();
        self.advance();
        proof {
            assert(final(self).errs() =~= old(self).errs() + spec_parse_value_type(
                old(self).toks(),
                old(self).pos(),
            ).errs);
        }
        Some(AnnotatedType::Primitive(primitive))
    }
}

} // verus!

//! Semantic value types and the resolver from syntactic annotations.

pub mod annotated_type;
pub mod return_type;

use vstd::prelude::*;

use crate::types::annotated_type::{
    all_digits, digits_value, spec_width_suffix, AnnotatedType, AnnotatedTypeV,
};
use crate::types::return_type::{ReturnType, ReturnTypeV};

verus! {

/// The width of a floating-point value type.
#[derive(Debug, Hash, Clone, Copy, PartialEq, Eq, Structural)]
pub enum FloatWidth {
    F16,
    F32,
    F64,
    F128,
}

/// A resolved semantic type. Distinct from [`AnnotatedType`]: the
/// analyzer never works on syntax directly.
#[derive(Debug, PartialEq, Eq)]
pub enum ValueType {
    Integer { bits: u16, unsigned: bool },
    Float { width: FloatWidth },
    Pointer(Box<ValueType>),
    Bool,
    Void,
    Function { params: Vec<ValueType>, return_type: Box<ValueType> },
}

/// The spec-level value of a [`ValueType`].
pub enum ValueTypeV {
    Integer { bits: u16, unsigned: bool },
    Float { width: FloatWidth },
    Pointer(Box<ValueTypeV>),
    Bool,
    Void,
    Function { params: Seq<ValueTypeV>, return_type: Box<ValueTypeV> },
}

/// The views of a sequence of value types, in order.
pub open spec fn value_types_view(ss: Seq<ValueType>) -> Seq<ValueTypeV>
    decreases ss,
{
    if ss.len() == 0 {
        Seq::<ValueTypeV>::empty()
    } else {
        value_types_view(ss.drop_last()).push(ss.last()@)
    }
}

/// Pushing onto a value type sequence appends its view.
pub proof fn lemma_value_types_view_push(ss: Seq<ValueType>, v: ValueType)
    ensures
        value_types_view(ss.push(v)) == value_types_view(ss).push(v@),
{
    assert(ss.push(v).drop_last() =~= ss);
    assert(ss.push(v).last() == v);
}

impl View for ValueType {
    type V = ValueTypeV;

    open spec fn view(&self) -> ValueTypeV
        decreases self,
    {
        match self {
            ValueType::Integer { bits, unsigned } => ValueTypeV::Integer {
                bits: *bits,
                unsigned: *unsigned,
            },
            ValueType::Float { width } => ValueTypeV::Float { width: *width },
            ValueType::Pointer(inner) => ValueTypeV::Pointer(Box::new((**inner)@)),
            ValueType::Bool => ValueTypeV::Bool,
            ValueType::Void => ValueTypeV::Void,
            ValueType::Function { params, return_type } => ValueTypeV::Function {
                params: value_types_view(params@),
                return_type: Box::new((**return_type)@),
            },
        }
    }
}

/// Whether a primitive name resolves: `i<N>`/`u<N>` with `N >= 1`,
/// `f16|f32|f64|f128`, or `bool`. Anything else is an internal invariant
/// violation of the parser-resolver contract, not a user error.
pub open spec fn primitive_resolvable(s: Seq<char>) -> bool {
    ||| (spec_width_suffix(s, 'i') matches Some(n) && n >= 1)
    ||| (spec_width_suffix(s, 'u') matches Some(n) && n >= 1)
    ||| (spec_width_suffix(s, 'f') matches Some(n) && (n == 16 || n == 32 || n == 64 || n
        == 128))
    ||| s == "bool"@
}

/// Whether a syntactic annotation resolves to a semantic type.
pub open spec fn annotated_resolvable(t: AnnotatedTypeV) -> bool
    decreases t,
{
    match t {
        AnnotatedTypeV::Primitive(s) => primitive_resolvable(s),
        AnnotatedTypeV::Pointer(inner) => annotated_resolvable(*inner),
    }
}

/// The integer width a name `i<N>`/`u<N>` declares, if `N >= 1`.
pub open spec fn spec_int_width(s: Seq<char>, first: char) -> Option<u16> {
    match spec_width_suffix(s, first) {
        Some(n) => if n >= 1 {
            Some(n)
        } else {
            None
        },
        None => None,
    }
}

/// The float width a name `f<W>` declares, for the supported widths.
pub open spec fn spec_float_width(s: Seq<char>) -> Option<FloatWidth> {
    match spec_width_suffix(s, 'f') {
        Some(n) => if n == 16 {
            Some(FloatWidth::F16)
        } else if n == 32 {
            Some(FloatWidth::F32)
        } else if n == 64 {
            Some(FloatWidth::F64)
        } else if n == 128 {
            Some(FloatWidth::F128)
        } else {
            None
        },
        None => None,
    }
}

/// What a resolvable primitive name resolves to.
pub open spec fn spec_resolve_primitive(s: Seq<char>) -> ValueTypeV {
    match spec_int_width(s, 'i') {
        Some(n) => ValueTypeV::Integer { bits: n, unsigned: false },
        None => match spec_int_width(s, 'u') {
            Some(n) => ValueTypeV::Integer { bits: n, unsigned: true },
            None => match spec_float_width(s) {
                Some(w) => ValueTypeV::Float { width: w },
                None => ValueTypeV::Bool,
            },
        },
    }
}

/// What a resolvable annotation resolves to.
pub open spec fn spec_resolve_annotated(t: AnnotatedTypeV) -> ValueTypeV
    decreases t,
{
    match t {
        AnnotatedTypeV::Primitive(s) => spec_resolve_primitive(s),
        AnnotatedTypeV::Pointer(inner) => ValueTypeV::Pointer(
            Box::new(spec_resolve_annotated(*inner)),
        ),
    }
}

/// Whether a syntactic return type resolves.
pub open spec fn return_type_resolvable(t: ReturnTypeV) -> bool {
    match t {
        ReturnTypeV::Void => true,
        ReturnTypeV::Type(a) => annotated_resolvable(a),
    }
}

/// What a resolvable return type resolves to: `void` maps to
/// [`ValueTypeV::Void`], anything else via the annotation rule.
pub open spec fn spec_resolve_return_type(t: ReturnTypeV) -> ValueTypeV {
    match t {
        ReturnTypeV::Void => ValueTypeV::Void,
        ReturnTypeV::Type(a) => spec_resolve_annotated(a),
    }
}

impl AnnotatedType {
    /// Whether this annotation resolves, as [`annotated_resolvable`]
    /// says: the test the analyzer's caller makes before resolving.
    pub fn is_resolvable(&self) -> (r: bool)
        ensures
            r == annotated_resolvable(self@),
        decreases self,
    {
        match self {
            AnnotatedType::Pointer(inner) => inner.is_resolvable(),
            AnnotatedType::Primitive(s) => {
                proof {
                    reveal_strlit("bool");
                }
                if self.is_int() {
                    return true;
                }
                if self.is_unsigned() {
                    return true;
                }
                match self.get_float_bitwidth() {
                    Some(_) => true,
                    None => crate::tokens::str_eq(s.as_str(), "bool"),
                }
            },
        }
    }
}

impl ReturnType {
    /// Whether this return type resolves, as [`return_type_resolvable`]
    /// says.
    pub fn is_resolvable(&self) -> (r: bool)
        ensures
            r == return_type_resolvable(self@),
    {
        match self {
            ReturnType::Void => true,
            ReturnType::Type(t) => t.is_resolvable(),
        }
    }
}

impl ValueType {
    /// Resolves a return type annotation to its semantic type.
    pub fn from_return_type(return_type: ReturnType) -> (r: ValueType)
        requires
            return_type_resolvable(return_type@),
        ensures
            r@ == spec_resolve_return_type(return_type@),
    {
        match return_type {
            ReturnType::Void => ValueType::Void,
            ReturnType::Type(t) => ValueType::from_annotated_type(t),
        }
    }

    /// Resolves a type annotation to its semantic type: pointers map
    /// recursively, primitive names by their `i<N>`/`u<N>`/`f<W>`/`bool`
    /// shape.
    pub fn from_annotated_type(annotated_type: AnnotatedType) -> (r: ValueType)
        requires
            annotated_resolvable(annotated_type@),
        ensures
            r@ == spec_resolve_annotated(annotated_type@),
        decreases annotated_type,
    {
        match annotated_type {
            AnnotatedType::Pointer(a) => {
                let ptr = Self::from_annotated_type(*a);
                ValueType::Pointer(Box::new(ptr))
            },
            AnnotatedType::Primitive(_) => {
                proof {
                    reveal_strlit("bool");
                }
                if annotated_type.is_int() {
                    let width = annotated_type.get_int_bitwidth().unwrap();
                    return ValueType::Integer { bits: width, unsigned: false };
                }
                if annotated_type.is_unsigned() {
                    let width = annotated_type.get_unsigned_bitwidth().unwrap();
                    return ValueType::Integer { bits: width, unsigned: true };
                }
                if annotated_type.is_float() {
                    let width = annotated_type.get_float_bitwidth().unwrap();
                    return ValueType::Float { width };
                }
                ValueType::Bool
            },
        }
    }
}

} // verus!

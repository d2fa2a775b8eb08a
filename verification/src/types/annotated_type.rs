//! Syntactic type annotations as the programmer wrote them, and their
//! classification into integer, unsigned, float and bool shapes.

use vstd::prelude::*;

verus! {

/// A type annotation as written in the source: a primitive name such as
/// `i32`, or a pointer to another annotation, such as `**u8`.
#[derive(Debug, PartialEq, Eq)]
pub enum AnnotatedType {
    Primitive(String),
    Pointer(Box<AnnotatedType>),
}

/// The spec-level value of an [`AnnotatedType`].
pub enum AnnotatedTypeV {
    Primitive(Seq<char>),
    Pointer(Box<AnnotatedTypeV>),
}

impl Clone for AnnotatedType {
    /// A clone is spec-equal to the original.
    fn clone(&self) -> (r: Self)
        ensures
            r@ == self@,
        decreases self,
    {
        match self {
            AnnotatedType::Primitive(s) => AnnotatedType::Primitive(s.clone()),
            AnnotatedType::Pointer(inner) => AnnotatedType::Pointer(
                Box::new((**inner).clone()),
            ),
        }
    }
}

impl View for AnnotatedType {
    type V = AnnotatedTypeV;

    open spec fn view(&self) -> AnnotatedTypeV
        decreases self,
    {
        match self {
            AnnotatedType::Primitive(s) => AnnotatedTypeV::Primitive(s@),
            AnnotatedType::Pointer(inner) => AnnotatedTypeV::Pointer(Box::new((**inner)@)),
        }
    }
}

/// Whether `s` is one or more ASCII decimal digits.
pub open spec fn all_digits(s: Seq<char>) -> bool {
    s.len() >= 1 && forall|i: int| 0 <= i < s.len() ==> '0' <= #[trigger] s[i] <= '9'
}

/// The number a digit sequence denotes, most significant digit first.
pub open spec fn digits_value(s: Seq<char>) -> nat
    decreases s.len(),
{
    if s.len() == 0 {
        0
    } else {
        (digits_value(s.drop_last()) * 10 + (s.last() as int - '0' as int)) as nat
    }
}

/// Whether a primitive name is a well-formed width suffix after its
/// leading letter: at least one digit, and a value that fits in `u16`.
/// The suffix is read with a 16-bit parse, so a width beyond
/// `u16::MAX` does not classify.
pub open spec fn spec_width_suffix(s: Seq<char>, first: char) -> Option<u16> {
    if s.len() >= 2 && s[0] == first && all_digits(s.skip(1)) && digits_value(s.skip(1))
        <= u16::MAX {
        Some(digits_value(s.skip(1)) as u16)
    } else {
        Option::<u16>::None
    }
}

/// Increasing prefixes of a digit sequence denote non-decreasing values.
pub proof fn lemma_digits_value_take_le(s: Seq<char>, i: int, j: int)
    requires
        0 <= i <= j <= s.len(),
        forall|k: int| 0 <= k < s.len() ==> '0' <= #[trigger] s[k] <= '9',
    ensures
        digits_value(s.take(i)) <= digits_value(s.take(j)),
    decreases j - i,
{
    if i < j {
        lemma_digits_value_take_le(s, i, j - 1);
        assert(s.take(j).drop_last() =~= s.take(j - 1));
        assert(digits_value(s.take(j)) == (digits_value(s.take(j - 1)) * 10 + (s.take(
            j,
        ).last() as int - '0' as int)) as nat);
        assert(digits_value(s.take(j - 1)) * 10 >= digits_value(s.take(j - 1)));
    }
}

/// Reads the width suffix of a primitive name: returns the number its
/// digits after the leading `first` character denote, if the name has
/// that shape and the number fits in sixteen bits.
fn parse_width_suffix(s: &str, first: char) -> (r: Option<u16>)
    ensures
        r == spec_width_suffix(s@, first),
{
    let n = s.unicode_len();
    if n < 2 {
        return None;
    }
    if s.get_char(0) != first {
        return None;
    }
    let mut val: u32 = 0;
    let mut i: usize = 1;
    let ghost d = s@.skip(1);
    proof {
        assert(d.take(0) =~= Seq::<char>::empty());
    }
    while i < n
        invariant
            1 <= i <= n,
            n == s@.len(),
            d == s@.skip(1),
            d.len() == n - 1,
            s@[0] == first,
            forall|k: int| 0 <= k < i - 1 ==> '0' <= #[trigger] d[k] <= '9',
            val <= 65535,
            val == digits_value(d.take(i - 1)),
        decreases n - i,
    {
        let c = s.get_char(i);
        let u = c as u32;
        if u < 48 || u > 57 {
            proof {
                assert(d[i - 1] == s@[i as int]);
                assert(!('0' <= d[i - 1] <= '9'));
            }
            return None;
        }
        let dv = u - 48;
        proof {
            assert('0' <= d[i - 1] <= '9');
            assert(dv == d[i - 1] as nat - '0' as nat);
        }
        if val > 6553 || (val == 6553 && dv > 5) {
            // the suffix denotes a number beyond sixteen bits
            proof {
                assert(d.take(i as int).drop_last() =~= d.take(i - 1));
                assert(digits_value(d.take(i as int)) == val * 10 + dv);
                if all_digits(d) {
                    lemma_digits_value_take_le(d, i as int, d.len() as int);
                    assert(d.take(d.len() as int) =~= d);
                    assert(digits_value(d) > 65535);
                }
            }
            return None;
        }
        proof {
            assert(d.take(i as int).drop_last() =~= d.take(i - 1));
            assert(digits_value(d.take(i as int)) == val * 10 + dv);
        }
        val = val * 10 + dv;
        i = i + 1;
    }
    proof {
        assert(d.take(n - 1) =~= d);
        assert(all_digits(d));
        assert(digits_value(d) == val);
    }
    Some(val as u16)
}

impl AnnotatedType {
    /// Whether this annotation is a signed integer name `i<N>`, `N >= 1`.
    pub fn is_int(&self) -> (r: bool)
        ensures
            r == (self@ matches AnnotatedTypeV::Primitive(s)
                && (spec_width_suffix(s, 'i') matches Some(n) && n >= 1)),
    {
        match self {
            AnnotatedType::Primitive(t) => match parse_width_suffix(t.as_str(), 'i') {
                Some(n) => n >= 1,
                None => false,
            },
            _ => false,
        }
    }

    /// Whether this annotation is an unsigned integer name `u<N>`, `N >= 1`.
    pub fn is_unsigned(&self) -> (r: bool)
        ensures
            r == (self@ matches AnnotatedTypeV::Primitive(s)
                && (spec_width_suffix(s, 'u') matches Some(n) && n >= 1)),
    {
        match self {
            AnnotatedType::Primitive(t) => match parse_width_suffix(t.as_str(), 'u') {
                Some(n) => n >= 1,
                None => false,
            },
            _ => false,
        }
    }

    /// Whether this annotation is a float name `f<N>`, `N >= 1`; the name
    /// need not be one of the supported widths for this test alone.
    pub fn is_float(&self) -> (r: bool)
        ensures
            r == (self@ matches AnnotatedTypeV::Primitive(s)
                && (spec_width_suffix(s, 'f') matches Some(n) && n >= 1)),
    {
        match self {
            AnnotatedType::Primitive(t) => match parse_width_suffix(t.as_str(), 'f') {
                Some(n) => n >= 1,
                None => false,
            },
            _ => false,
        }
    }

    /// The width of a float name, for the supported widths 16, 32, 64
    /// and 128 only.
    pub fn get_float_bitwidth(&self) -> (r: Option<crate::types::FloatWidth>)
        ensures
            r == (match self@ {
                AnnotatedTypeV::Primitive(s) => match spec_width_suffix(s, 'f') {
                    Some(n) => if n == 16 {
                        Some(crate::types::FloatWidth::F16)
                    } else if n == 32 {
                        Some(crate::types::FloatWidth::F32)
                    } else if n == 64 {
                        Some(crate::types::FloatWidth::F64)
                    } else if n == 128 {
                        Some(crate::types::FloatWidth::F128)
                    } else {
                        None
                    },
                    None => None,
                },
                _ => None,
            }),
    {
        match self {
            AnnotatedType::Primitive(t) => match parse_width_suffix(t.as_str(), 'f') {
                Some(16) => Some(crate::types::FloatWidth::F16),
                Some(32) => Some(crate::types::FloatWidth::F32),
                Some(64) => Some(crate::types::FloatWidth::F64),
                Some(128) => Some(crate::types::FloatWidth::F128),
                _ => None,
            },
            _ => None,
        }
    }

    /// The width of a signed integer name `i<N>`, `N >= 1`.
    pub fn get_int_bitwidth(&self) -> (r: Option<u16>)
        ensures
            r == (match self@ {
                AnnotatedTypeV::Primitive(s) => match spec_width_suffix(s, 'i') {
                    Some(n) => if n >= 1 {
                        Some(n)
                    } else {
                        None
                    },
                    None => None,
                },
                _ => None,
            }),
    {
        match self {
            AnnotatedType::Primitive(t) => match parse_width_suffix(t.as_str(), 'i') {
                Some(n) => if n == 0 {
                    None
                } else {
                    Some(n)
                },
                None => None,
            },
            _ => None,
        }
    }

    /// The width of an unsigned integer name `u<N>`, `N >= 1`.
    pub fn get_unsigned_bitwidth(&self) -> (r: Option<u16>)
        ensures
            r == (match self@ {
                AnnotatedTypeV::Primitive(s) => match spec_width_suffix(s, 'u') {
                    Some(n) => if n >= 1 {
                        Some(n)
                    } else {
                        None
                    },
                    None => None,
                },
                _ => None,
            }),
    {
        match self {
            AnnotatedType::Primitive(t) => match parse_width_suffix(t.as_str(), 'u') {
                Some(n) => if n == 0 {
                    None
                } else {
                    Some(n)
                },
                None => None,
            },
            _ => None,
        }
    }
}

} // verus!

//! Reading a field's type, as the derive input spells it, into a descriptor.
//!
//! Whitespace is not significant: `Option < i32 >` and `Option<i32>` are the
//! same type.

use vstd::prelude::*;

use crate::descriptor::{PrimitiveKind, TypeDescriptor};

verus! {

/// Whitespace, which type text may hold between tokens.
pub open spec fn is_blank(c: char) -> bool {
    c == ' ' || c == '\t' || c == '\n' || c == '\r'
}

/// The characters of `s` with all whitespace removed.
pub open spec fn compact(s: Seq<char>) -> Seq<char>
    decreases s.len(),
{
    if s.len() == 0 {
        s
    } else if is_blank(s.last()) {
        compact(s.drop_last())
    } else {
        compact(s.drop_last()).push(s.last())
    }
}

/// The primitive spelled exactly `t`, if any.
pub open spec fn primitive_named(t: Seq<char>) -> Option<PrimitiveKind> {
    if t == "i8"@ {
        Some(PrimitiveKind::I8)
    } else if t == "i16"@ {
        Some(PrimitiveKind::I16)
    } else if t == "i32"@ {
        Some(PrimitiveKind::I32)
    } else if t == "i64"@ {
        Some(PrimitiveKind::I64)
    } else if t == "i128"@ {
        Some(PrimitiveKind::I128)
    } else if t == "isize"@ {
        Some(PrimitiveKind::ISize)
    } else if t == "u8"@ {
        Some(PrimitiveKind::U8)
    } else if t == "u16"@ {
        Some(PrimitiveKind::U16)
    } else if t == "u32"@ {
        Some(PrimitiveKind::U32)
    } else if t == "u64"@ {
        Some(PrimitiveKind::U64)
    } else if t == "u128"@ {
        Some(PrimitiveKind::U128)
    } else if t == "usize"@ {
        Some(PrimitiveKind::USize)
    } else if t == "f32"@ {
        Some(PrimitiveKind::F32)
    } else if t == "f64"@ {
        Some(PrimitiveKind::F64)
    } else if t == "bool"@ {
        Some(PrimitiveKind::Bool)
    } else if t == "String"@ {
        Some(PrimitiveKind::OwnedString)
    } else if t == "str"@ {
        Some(PrimitiveKind::Str)
    } else if t == "&str"@ {
        Some(PrimitiveKind::StrRef)
    } else if t == "chrono::NaiveDate"@ {
        Some(PrimitiveKind::NaiveDate)
    } else if t == "chrono::NaiveDateTime"@ {
        Some(PrimitiveKind::NaiveDateTime)
    } else if t == "chrono::NaiveTime"@ {
        Some(PrimitiveKind::NaiveTime)
    } else if t == "chrono::DateTime<chrono::Utc>"@ {
        Some(PrimitiveKind::DateTimeUtc)
    } else {
        None
    }
}

/// `t` is `prefix`, then at least one character, then a closing `>`.
pub open spec fn is_wrapped(t: Seq<char>, prefix: Seq<char>) -> bool {
    &&& prefix.len() + 1 < t.len()
    &&& t.subrange(0, prefix.len() as int) == prefix
    &&& t.last() == '>'
}

/// The descriptor of a type spelled `t` (without whitespace): a known
/// primitive, an `Option<..>` around another type, or anything else.
pub open spec fn descriptor_of(t: Seq<char>) -> TypeDescriptor
    decreases t.len(),
{
    match primitive_named(t) {
        Some(k) => TypeDescriptor::Primitive(k),
        None => if is_wrapped(t, "Option<"@) {
            TypeDescriptor::Optional(
                Box::new(descriptor_of(t.subrange("Option<"@.len() as int, t.len() - 1))),
            )
        } else if is_wrapped(t, "std::option::Option<"@) {
            TypeDescriptor::Optional(
                Box::new(
                    descriptor_of(t.subrange("std::option::Option<"@.len() as int, t.len() - 1)),
                ),
            )
        } else {
            TypeDescriptor::Other
        },
    }
}

/// The descriptor of a type written as `text`.
pub open spec fn descriptor_of_text(text: Seq<char>) -> TypeDescriptor {
    descriptor_of(compact(text))
}

/// `text` without whitespace.
fn compact_text(text: &str) -> (r: Vec<char>)
    ensures
        r@ == compact(text@),
{
    let n = text.unicode_len();
    let mut out: Vec<char> = Vec::new();
    let mut i: usize = 0;
    while i < n
        invariant
            i <= n,
            n == text@.len(),
            out@ == compact(text@.subrange(0, i as int)),
        decreases n - i,
    {
        let c = text.get_char(i);
        assert(text@.subrange(0, i + 1).drop_last() =~= text@.subrange(0, i as int));
        if !(c == ' ' || c == '\t' || c == '\n' || c == '\r') {
            out.push(c);
        }
        i += 1;
    }
    assert(text@.subrange(0, n as int) =~= text@);
    out
}

/// Whether `t[lo..hi]` spells exactly `lit`.
fn range_is(t: &Vec<char>, lo: usize, hi: usize, lit: &str) -> (r: bool)
    requires
        lo <= hi <= t@.len(),
    ensures
        r == (t@.subrange(lo as int, hi as int) == lit@),
{
    let n = lit.unicode_len();
    if hi - lo != n {
        assert(t@.subrange(lo as int, hi as int).len() != lit@.len());
        return false;
    }
    let mut i: usize = 0;
    while i < n
        invariant
            i <= n,
            n == lit@.len(),
            hi - lo == n,
            lo <= hi <= t@.len(),
            forall|j: int| 0 <= j < i ==> t@[lo + j] == lit@[j],
        decreases n - i,
    {
        if t[lo + i] != lit.get_char(i) {
            assert(t@.subrange(lo as int, hi as int)[i as int] != lit@[i as int]);
            return false;
        }
        i += 1;
    }
    assert(t@.subrange(lo as int, hi as int) =~= lit@);
    true
}

/// Whether `t[lo..hi]` is `prefix`, at least one character, then `>`.
fn range_is_wrapped(t: &Vec<char>, lo: usize, hi: usize, prefix: &str) -> (r: bool)
    requires
        lo <= hi <= t@.len(),
    ensures
        r == is_wrapped(t@.subrange(lo as int, hi as int), prefix@),
{
    let ghost s = t@.subrange(lo as int, hi as int);
    let n = prefix.unicode_len();
    if n >= hi - lo || n + 1 >= hi - lo {
        return false;
    }
    assert(s.subrange(0, n as int) =~= t@.subrange(lo as int, lo + n));
    range_is(t, lo, lo + n, prefix) && t[hi - 1] == '>'
}

/// The primitive spelled exactly by `t[lo..hi]`, if any.
fn primitive_in_range(t: &Vec<char>, lo: usize, hi: usize) -> (r: Option<PrimitiveKind>)
    requires
        lo <= hi <= t@.len(),
    ensures
        r == primitive_named(t@.subrange(lo as int, hi as int)),
{
    if range_is(t, lo, hi, "i8") {
        return Some(PrimitiveKind::I8);
    }
    if range_is(t, lo, hi, "i16") {
        return Some(PrimitiveKind::I16);
    }
    if range_is(t, lo, hi, "i32") {
        return Some(PrimitiveKind::I32);
    }
    if range_is(t, lo, hi, "i64") {
        return Some(PrimitiveKind::I64);
    }
    if range_is(t, lo, hi, "i128") {
        return Some(PrimitiveKind::I128);
    }
    if range_is(t, lo, hi, "isize") {
        return Some(PrimitiveKind::ISize);
    }
    if range_is(t, lo, hi, "u8") {
        return Some(PrimitiveKind::U8);
    }
    if range_is(t, lo, hi, "u16") {
        return Some(PrimitiveKind::U16);
    }
    if range_is(t, lo, hi, "u32") {
        return Some(PrimitiveKind::U32);
    }
    if range_is(t, lo, hi, "u64") {
        return Some(PrimitiveKind::U64);
    }
    if range_is(t, lo, hi, "u128") {
        return Some(PrimitiveKind::U128);
    }
    if range_is(t, lo, hi, "usize") {
        return Some(PrimitiveKind::USize);
    }
    if range_is(t, lo, hi, "f32") {
        return Some(PrimitiveKind::F32);
    }
    if range_is(t, lo, hi, "f64") {
        return Some(PrimitiveKind::F64);
    }
    if range_is(t, lo, hi, "bool") {
        return Some(PrimitiveKind::Bool);
    }
    if range_is(t, lo, hi, "String") {
        return Some(PrimitiveKind::OwnedString);
    }
    if range_is(t, lo, hi, "str") {
        return Some(PrimitiveKind::Str);
    }
    if range_is(t, lo, hi, "&str") {
        return Some(PrimitiveKind::StrRef);
    }
    if range_is(t, lo, hi, "chrono::NaiveDate") {
        return Some(PrimitiveKind::NaiveDate);
    }
    if range_is(t, lo, hi, "chrono::NaiveDateTime") {
        return Some(PrimitiveKind::NaiveDateTime);
    }
    if range_is(t, lo, hi, "chrono::NaiveTime") {
        return Some(PrimitiveKind::NaiveTime);
    }
    if range_is(t, lo, hi, "chrono::DateTime<chrono::Utc>") {
        return Some(PrimitiveKind::DateTimeUtc);
    }
    None
}

/// The descriptor of the type spelled by `t[lo..hi]`.
fn descriptor_in_range(t: &Vec<char>, lo: usize, hi: usize) -> (r: TypeDescriptor)
    requires
        lo <= hi <= t@.len(),
    ensures
        r == descriptor_of(t@.subrange(lo as int, hi as int)),
    decreases hi - lo,
{
    let ghost s = t@.subrange(lo as int, hi as int);
    match primitive_in_range(t, lo, hi) {
        Some(k) => TypeDescriptor::Primitive(k),
        None => {
            if range_is_wrapped(t, lo, hi, "Option<") {
                let n = "Option<".unicode_len();
                assert(s.subrange(n as int, s.len() - 1) =~= t@.subrange(lo + n, hi - 1));
                TypeDescriptor::Optional(Box::new(descriptor_in_range(t, lo + n, hi - 1)))
            } else if range_is_wrapped(t, lo, hi, "std::option::Option<") {
                let n = "std::option::Option<".unicode_len();
                assert(s.subrange(n as int, s.len() - 1) =~= t@.subrange(lo + n, hi - 1));
                TypeDescriptor::Optional(Box::new(descriptor_in_range(t, lo + n, hi - 1)))
            } else {
                TypeDescriptor::Other
            }
        },
    }
}

/// Reads a type written as text, such as `Option < i32 >`, into a descriptor.
pub fn parse_type_descriptor(text: &str) -> (r: TypeDescriptor)
    ensures
        r == descriptor_of_text(text@),
{
    let t = compact_text(text);
    assert(t@.subrange(0, t@.len() as int) =~= t@);
    descriptor_in_range(&t, 0, t.len())
}

/// Whether a type written as text is taken for a user-defined enumeration:
/// anything but an allow-listed primitive, or such a primitive under one
/// `Option`.
pub fn is_likely_enum_type(type_str: &str) -> (r: bool)
    ensures
        r == crate::descriptor::is_enum_like(descriptor_of_text(type_str@)),
{
    let d = parse_type_descriptor(type_str);
    crate::descriptor::enum_like(&d)
}

} // verus!

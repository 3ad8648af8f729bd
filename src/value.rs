//! Self-describing values as they travel over the message bus, and the casts
//! from them to the types that the protocol layer reads.
use vstd::prelude::*;

use crate::errors::{ErrorKind, Result};

verus! {

/// A value received over the bus, tagged with its own runtime type.
#[derive(Debug, PartialEq)]
pub enum WireValue {
    Bool(bool),
    Byte(u8),
    Int16(i16),
    UInt16(u16),
    Int32(i32),
    UInt32(u32),
    Int64(i64),
    UInt64(u64),
    /// A double-precision float, held as its IEEE-754 bit pattern.
    Double(u64),
    Str(String),
    ObjectPath(String),
    Signature(String),
    Array(Vec<WireValue>),
    /// A map whose keys are strings, in the order the entries arrived.
    Dict(Vec<(String, WireValue)>),
    Struct(Vec<WireValue>),
    /// A value wrapped together with its own type.
    Variant(Box<WireValue>),
}

/// The text of a string-shaped value (a string, an object path or a
/// signature), looking through variant wrappers.
pub open spec fn text_of(v: WireValue) -> Option<Seq<char>>
    decreases v,
{
    match v {
        WireValue::Str(s) => Some(s@),
        WireValue::ObjectPath(s) => Some(s@),
        WireValue::Signature(s) => Some(s@),
        WireValue::Variant(b) => text_of(*b),
        _ => None,
    }
}

/// The value of an unsigned integer or a boolean (as 0 or 1), looking through
/// variant wrappers.
pub open spec fn unsigned_of(v: WireValue) -> Option<u64>
    decreases v,
{
    match v {
        WireValue::Bool(b) => Some(if b { 1u64 } else { 0u64 }),
        WireValue::Byte(n) => Some(n as u64),
        WireValue::UInt16(n) => Some(n as u64),
        WireValue::UInt32(n) => Some(n as u64),
        WireValue::UInt64(n) => Some(n),
        WireValue::Variant(b) => unsigned_of(*b),
        _ => None,
    }
}

/// A boolean, exactly.
pub open spec fn bool_of(v: WireValue) -> Option<bool> {
    match v {
        WireValue::Bool(b) => Some(b),
        _ => None,
    }
}

/// The bit pattern of a double, exactly.
pub open spec fn double_of(v: WireValue) -> Option<u64> {
    match v {
        WireValue::Double(d) => Some(d),
        _ => None,
    }
}

/// A 64-bit signed integer, exactly.
pub open spec fn int64_of(v: WireValue) -> Option<i64> {
    match v {
        WireValue::Int64(n) => Some(n),
        _ => None,
    }
}

/// A plain string, exactly (object paths and signatures do not count).
pub open spec fn string_of(v: WireValue) -> Option<String> {
    match v {
        WireValue::Str(s) => Some(s),
        _ => None,
    }
}

/// An array whose items are all plain strings.
pub open spec fn string_list_of(v: WireValue) -> Option<Seq<String>> {
    match v {
        WireValue::Array(items) => if forall|i: int| 0 <= i < items@.len() ==> #[trigger] items@[i] is Str {
            Some(items@.map_values(|x: WireValue| x->Str_0))
        } else {
            None
        },
        _ => None,
    }
}

/// The entries of a string-keyed map whose values are all variants, each
/// value taken out of its variant.
pub open spec fn variant_dict_of(v: WireValue) -> Option<Seq<(String, WireValue)>> {
    match v {
        WireValue::Dict(items) => if forall|i: int|
            0 <= i < items@.len() ==> #[trigger] items@[i].1 is Variant {
            Some(items@.map_values(|e: (String, WireValue)| (e.0, *(e.1->Variant_0))))
        } else {
            None
        },
        _ => None,
    }
}

/// The text that the derived `Debug` rendering gives for a value.
pub uninterp spec fn debug_text_of(v: WireValue) -> Seq<char>;

/// Whether `r` is the cast error for `v` and the target type `ty`.
pub open spec fn is_cast_error<T>(r: Result<T>, v: WireValue, ty: Seq<char>) -> bool {
    r matches Err(ErrorKind::TypeCastError(text, t)) && text@ == debug_text_of(v) && t@ == ty
}

/// Relies on the `Debug` rendering that `derive` writes for `WireValue`: the
/// text depends on the value alone.
#[verifier::external_body]
pub(crate) fn debug_text(v: &WireValue) -> (r: String)
    ensures
        r@ == debug_text_of(*v),
{
    format!("{:?}", v)
}

/// The cast error for `v` and the target type `ty`.
pub fn cast_error(v: &WireValue, ty: &'static str) -> (e: ErrorKind)
    ensures
        is_cast_error(Err::<(), ErrorKind>(e), *v, ty@),
{
    ErrorKind::TypeCastError(debug_text(v), ty)
}

impl WireValue {
    /// The text of a string-shaped value.
    pub fn as_str(&self) -> (r: Option<&str>)
        ensures
            match r {
                Some(s) => text_of(*self) == Some(s@),
                None => text_of(*self) is None,
            },
        decreases self,
    {
        match self {
            WireValue::Str(s) => Some(s.as_str()),
            WireValue::ObjectPath(s) => Some(s.as_str()),
            WireValue::Signature(s) => Some(s.as_str()),
            WireValue::Variant(b) => b.as_str(),
            _ => None,
        }
    }

    /// The value of an unsigned integer or a boolean.
    pub fn as_u64(&self) -> (r: Option<u64>)
        ensures
            r == unsigned_of(*self),
        decreases self,
    {
        match self {
            WireValue::Bool(b) => Some(if *b { 1u64 } else { 0u64 }),
            WireValue::Byte(n) => Some(*n as u64),
            WireValue::UInt16(n) => Some(*n as u64),
            WireValue::UInt32(n) => Some(*n as u64),
            WireValue::UInt64(n) => Some(*n),
            WireValue::Variant(b) => b.as_u64(),
            _ => None,
        }
    }

    /// A boolean, exactly.
    pub fn as_bool(&self) -> (r: Option<bool>)
        ensures
            r == bool_of(*self),
    {
        match self {
            WireValue::Bool(b) => Some(*b),
            _ => None,
        }
    }

    /// The bit pattern of a double, exactly.
    pub fn as_double_bits(&self) -> (r: Option<u64>)
        ensures
            r == double_of(*self),
    {
        match self {
            WireValue::Double(d) => Some(*d),
            _ => None,
        }
    }

    /// A plain string, exactly.
    pub fn as_string(&self) -> (r: Option<String>)
        ensures
            r == string_of(*self),
    {
        match self {
            WireValue::Str(s) => Some(s.clone()),
            _ => None,
        }
    }

    /// An array of plain strings.
    pub fn as_string_list(&self) -> (r: Option<Vec<String>>)
        ensures
            match r {
                Some(l) => string_list_of(*self) == Some(l@),
                None => string_list_of(*self) is None,
            },
    {
        match self {
            WireValue::Array(items) => {
                let mut out: Vec<String> = Vec::new();
                let mut i: usize = 0;
                while i < items.len()
                    invariant
                        *self == WireValue::Array(*items),
                        i <= items@.len(),
                        out@.len() == i,
                        forall|k: int| 0 <= k < i ==> #[trigger] items@[k] is Str,
                        forall|k: int| 0 <= k < i ==> #[trigger] out@[k] == items@[k]->Str_0,
                    decreases items@.len() - i,
                {
                    match &items[i] {
                        WireValue::Str(s) => out.push(s.clone()),
                        _ => {
                            assert(!(items@[i as int] is Str));
                            return None;
                        },
                    }
                    i = i + 1;
                }
                assert(out@ =~= items@.map_values(|x: WireValue| x->Str_0));
                Some(out)
            },
            _ => None,
        }
    }
}

} // verus!

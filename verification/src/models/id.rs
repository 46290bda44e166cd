use vstd::prelude::*;

use crate::encode::{dec_chars, dec_parsed, dec_parses, parse_u64};

verus! {

// The tolerant identifier: the upstream API returns `uploader_id` and
// `tag_ids` fields sometimes as a JSON number and sometimes as a JSON
// string. Decoding branches on the incoming value's kind: a non-negative
// integer is accepted directly, a string is parsed as a base-10 unsigned
// 64-bit integer, and every other kind is an error.

/// A numeric identifier normalized from either JSON encoding.
#[derive(Debug, Clone, Copy, PartialEq, Eq, Structural)]
pub struct Id(pub u64);

/// The kind and payload of one incoming JSON value, reduced to what
/// identifier decoding reads: the two accepted kinds carry their value, the
/// rejected kinds carry only their name.
#[derive(Debug, PartialEq, Eq)]
pub enum JsonValue {
    /// A non-negative integer.
    UInt(u64),
    /// A signed integer; only a non-negative one can hold an identifier.
    Int(i64),
    /// A floating-point number.
    Float,
    /// A string.
    Str(String),
    /// A boolean.
    Bool(bool),
    Null,
    Array,
    Object,
}

/// Why an identifier field failed to decode.
#[derive(Debug, PartialEq, Eq)]
pub enum IdError {
    /// The value was a string, but not the decimal form of an unsigned
    /// 64-bit integer; the offending text is carried along.
    UnparsableString(String),
    /// The value's JSON kind cannot hold an identifier.
    UnsupportedKind,
}

/// What decoding an identifier from a JSON value yields.
pub open spec fn spec_decode_id(v: JsonValue) -> Result<Id, IdError> {
    match v {
        JsonValue::UInt(n) => Ok(Id(n)),
        JsonValue::Int(i) => if i >= 0 {
            Ok(Id(i as u64))
        } else {
            Err(IdError::UnsupportedKind)
        },
        JsonValue::Str(s) => if dec_parses(s@) {
            Ok(Id(dec_parsed(s@) as u64))
        } else {
            Err(IdError::UnparsableString(s))
        },
        _ => Err(IdError::UnsupportedKind),
    }
}

impl Id {
    /// Decode an identifier field: accept a non-negative integer directly,
    /// parse a string as a base-10 unsigned 64-bit integer, and reject every
    /// other JSON kind. A string that does not parse is an error naming the
    /// offending text, never a silent default.
    pub fn decode(v: JsonValue) -> (r: Result<Id, IdError>)
        ensures
            r == spec_decode_id(v),
    {
        match v {
            JsonValue::UInt(n) => Ok(Id(n)),
            JsonValue::Int(i) => {
                if i >= 0 {
                    Ok(Id(i as u64))
                } else {
                    Err(IdError::UnsupportedKind)
                }
            },
            JsonValue::Str(s) => {
                match parse_u64(s.as_str()) {
                    Some(n) => Ok(Id(n)),
                    None => Err(IdError::UnparsableString(s)),
                }
            },
            JsonValue::Float => Err(IdError::UnsupportedKind),
            JsonValue::Bool(_) => Err(IdError::UnsupportedKind),
            JsonValue::Null => Err(IdError::UnsupportedKind),
            JsonValue::Array => Err(IdError::UnsupportedKind),
            JsonValue::Object => Err(IdError::UnsupportedKind),
        }
    }
}

/// The tolerance law: a value delivered as the number `n` and the same value
/// delivered as its decimal string decode to the same identifier.
pub proof fn lemma_tolerant_id_agreement(n: u64, s: String)
    requires
        s@ == dec_chars(n as nat),
    ensures
        spec_decode_id(JsonValue::UInt(n)) == Ok::<Id, IdError>(Id(n)),
        spec_decode_id(JsonValue::Str(s)) == Ok::<Id, IdError>(Id(n)),
{
    crate::encode::lemma_dec_roundtrip(n);
}

} // verus!

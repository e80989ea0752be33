//! Snowflake identifiers as they appear in gateway payload bodies: either
//! a bare number or the same number written as a decimal string.

use vstd::prelude::*;

use crate::json::value::json_get;
use crate::json::value::JsonValue;
use crate::text::parse_u64;
use crate::text::parsed_u64;

verus! {

/// A snowflake id: a 64-bit value whose upper bits carry a timestamp.
#[derive(Debug, Clone, Copy, PartialEq, Eq, Structural)]
pub struct Id(pub u64);

/// Milliseconds between the unix epoch and the epoch snowflakes count from.
pub const SNOWFLAKE_EPOCH_MS: u64 = 1_420_070_400_000;

impl Id {
    /// The unix-epoch timestamp, in milliseconds, at which this id was
    /// minted.
    pub fn get_timestamp(self) -> (r: u64)
        ensures
            r == (self.0 >> 22) + SNOWFLAKE_EPOCH_MS,
    {
        proof {
            let n = self.0;
            assert(n >> 22 <= 0x3ff_ffff_ffff) by (bit_vector);
        }
        (self.0 >> 22) + SNOWFLAKE_EPOCH_MS
    }
}

/// The id a JSON value denotes: a number, or a decimal string.
pub open spec fn spec_id_of_json(v: JsonValue) -> Option<Id> {
    match v {
        JsonValue::UInt(n) => Some(Id(n)),
        JsonValue::Text(s) => match parsed_u64(s@) {
            Some(n) => Some(Id(n)),
            None => None,
        },
        _ => None,
    }
}

/// The id an object member denotes.
pub open spec fn spec_id_field(v: JsonValue, key: Seq<char>) -> Option<Id> {
    match json_get(v, key) {
        Some(x) => spec_id_of_json(x),
        None => None,
    }
}

/// Reads an id from a JSON value that holds it as a number or a decimal
/// string.
pub fn id_of_json(v: &JsonValue) -> (r: Result<Id, ()>)
    ensures
        match r {
            Ok(id) => spec_id_of_json(*v) == Some(id),
            Err(_) => spec_id_of_json(*v) is None,
        },
{
    match v {
        JsonValue::UInt(n) => Ok(Id(*n)),
        JsonValue::Text(s) => match parse_u64(s.as_str()) {
            Some(n) => Ok(Id(n)),
            None => Err(()),
        },
        _ => Err(()),
    }
}

/// Reads an id member of an object.
pub fn id_field(v: &JsonValue, key: &str) -> (r: Result<Id, ()>)
    ensures
        match r {
            Ok(id) => spec_id_field(*v, key@) == Some(id),
            Err(_) => spec_id_field(*v, key@) is None,
        },
{
    match v.get(key) {
        Some(x) => id_of_json(x),
        None => Err(()),
    }
}

} // verus!

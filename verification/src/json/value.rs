//! A plain model of a JSON document, used for every payload body the
//! protocol engine inspects. Numbers keep their integer value where they
//! have one; any other number is carried opaquely by its bit pattern.
//! Objects keep their entries in order; a lookup takes the first entry with
//! the asked-for key.

use vstd::prelude::*;

verus! {

#[derive(Debug, PartialEq, Eq)]
pub enum JsonValue {
    Null,
    Bool(bool),
    UInt(u64),
    Int(i64),
    /// A number that is neither a `u64` nor an `i64`, kept as the bit
    /// pattern the transport handed over.
    Float { bits: u64 },
    Text(String),
    Array(Vec<JsonValue>),
    Object(Vec<(String, JsonValue)>),
}

/// The value of the first entry with the given key, if any.
pub open spec fn entries_get(entries: Seq<(String, JsonValue)>, key: Seq<char>) -> Option<
    JsonValue,
>
    decreases entries.len(),
{
    if entries.len() == 0 {
        None
    } else if entries[0].0@ == key {
        Some(entries[0].1)
    } else {
        entries_get(entries.drop_first(), key)
    }
}

/// Object member lookup; anything but an object has no members.
pub open spec fn json_get(v: JsonValue, key: Seq<char>) -> Option<JsonValue> {
    match v {
        JsonValue::Object(entries) => entries_get(entries@, key),
        _ => None,
    }
}

/// Member lookup as the wire format's consumers index a body: a missing
/// member reads as `null`.
pub open spec fn member_or_null(v: JsonValue, key: Seq<char>) -> JsonValue {
    match json_get(v, key) {
        Some(x) => x,
        None => JsonValue::Null,
    }
}

pub open spec fn json_as_u64(v: JsonValue) -> Option<u64> {
    match v {
        JsonValue::UInt(n) => Some(n),
        _ => None,
    }
}

pub open spec fn json_as_text(v: JsonValue) -> Option<Seq<char>> {
    match v {
        JsonValue::Text(s) => Some(s@),
        _ => None,
    }
}

/// Lookup skips entries whose key does not match.
proof fn lemma_entries_get_skip(entries: Seq<(String, JsonValue)>, key: Seq<char>, i: int)
    requires
        0 <= i < entries.len(),
        forall|j: int| 0 <= j < i ==> entries[j].0@ != key,
    ensures
        entries_get(entries, key) == entries_get(entries.skip(i), key),
    decreases i,
{
    if i == 0 {
        assert(entries.skip(0) =~= entries);
    } else {
        lemma_entries_get_skip(entries, key, i - 1);
        let s = entries.skip(i - 1);
        assert(s.len() == entries.len() - (i - 1));
        assert(s[0] == entries[i - 1]);
        assert(s[0].0@ != key);
        assert(entries_get(s, key) == entries_get(s.drop_first(), key));
        assert(s.drop_first() =~= entries.skip(i));
        assert(entries_get(s.drop_first(), key) == entries_get(entries.skip(i), key));
    }
}

/// Lookup past the last entry finds nothing.
proof fn lemma_entries_get_none(entries: Seq<(String, JsonValue)>, key: Seq<char>)
    requires
        forall|j: int| 0 <= j < entries.len() ==> entries[j].0@ != key,
    ensures
        entries_get(entries, key) is None,
    decreases entries.len(),
{
    if entries.len() > 0 {
        lemma_entries_get_none(entries.drop_first(), key);
    }
}

/// The index of the first entry with the given key, or `None`.
pub fn find_key(entries: &Vec<(String, JsonValue)>, key: &str) -> (r: Option<usize>)
    ensures
        match r {
            Some(i) => {
                &&& i < entries@.len()
                &&& entries@[i as int].0@ == key@
                &&& entries_get(entries@, key@) == Some(entries@[i as int].1)
            },
            None => entries_get(entries@, key@) is None,
        },
{
    let key_owned: String = key.to_owned();
    let mut i: usize = 0;
    while i < entries.len()
        invariant
            0 <= i <= entries@.len(),
            key_owned@ == key@,
            forall|j: int| 0 <= j < i ==> entries@[j].0@ != key@,
        decreases entries@.len() - i,
    {
        if entries[i].0 == key_owned {
            proof {
                lemma_entries_get_skip(entries@, key@, i as int);
                assert(entries@.skip(i as int).len() > 0);
                assert(entries@.skip(i as int)[0] == entries@[i as int]);
                assert(entries_get(entries@.skip(i as int), key@) == Some(entries@[i as int].1));
            }
            return Some(i);
        }
        i = i + 1;
    }
    proof {
        lemma_entries_get_none(entries@, key@);
    }
    None
}

impl JsonValue {
    /// Looks a member up by key, as `value[key]` reads a JSON object.
    pub fn get<'a>(&'a self, key: &str) -> (r: Option<&'a JsonValue>)
        ensures
            match r {
                Some(x) => json_get(*self, key@) == Some(*x),
                None => json_get(*self, key@) is None,
            },
    {
        match self {
            JsonValue::Object(entries) => {
                match find_key(entries, key) {
                    Some(i) => Some(&entries[i].1),
                    None => None,
                }
            },
            _ => None,
        }
    }

    /// The number this value holds, when it is an unsigned integer.
    pub fn as_u64(&self) -> (r: Option<u64>)
        ensures
            r == json_as_u64(*self),
    {
        match self {
            JsonValue::UInt(n) => Some(*n),
            _ => None,
        }
    }

    /// The string this value holds, when it is one.
    pub fn as_str<'a>(&'a self) -> (r: Option<&'a String>)
        ensures
            match r {
                Some(s) => json_as_text(*self) == Some(s@),
                None => json_as_text(*self) is None,
            },
    {
        match self {
            JsonValue::Text(s) => Some(s),
            _ => None,
        }
    }

}

/// A required string member: present and textual, or the record is refused.
pub open spec fn spec_req_str(v: JsonValue, key: Seq<char>) -> Option<String> {
    match json_get(v, key) {
        Some(JsonValue::Text(s)) => Some(s),
        _ => None,
    }
}

/// An optional string member: absent and `null` both mean "none"; any other
/// non-string value refuses the record.
pub open spec fn spec_opt_str(v: JsonValue, key: Seq<char>) -> Option<Option<String>> {
    match json_get(v, key) {
        None => Some(None),
        Some(JsonValue::Null) => Some(None),
        Some(JsonValue::Text(s)) => Some(Some(s)),
        Some(_) => None,
    }
}

/// An optional unsigned member, with an upper bound for the narrower
/// integer widths.
pub open spec fn spec_opt_uint(v: JsonValue, key: Seq<char>, max: u64) -> Option<Option<u64>> {
    match json_get(v, key) {
        None => Some(None),
        Some(JsonValue::Null) => Some(None),
        Some(JsonValue::UInt(n)) => if n <= max {
            Some(Some(n))
        } else {
            None
        },
        Some(_) => None,
    }
}

/// A required unsigned member no larger than `max`.
pub open spec fn spec_req_uint(v: JsonValue, key: Seq<char>, max: u64) -> Option<u64> {
    match json_get(v, key) {
        Some(JsonValue::UInt(n)) => if n <= max {
            Some(n)
        } else {
            None
        },
        _ => None,
    }
}

/// A boolean member that defaults to `false` when absent, as the wire
/// format leaves flag fields out.
pub open spec fn spec_bool_or_false(v: JsonValue, key: Seq<char>) -> Option<bool> {
    match json_get(v, key) {
        None => Some(false),
        Some(JsonValue::Bool(b)) => Some(b),
        Some(_) => None,
    }
}

/// A required boolean member.
pub open spec fn spec_req_bool(v: JsonValue, key: Seq<char>) -> Option<bool> {
    match json_get(v, key) {
        Some(JsonValue::Bool(b)) => Some(b),
        _ => None,
    }
}

/// Reads a required string member.
pub fn req_str(v: &JsonValue, key: &str) -> (r: Result<String, ()>)
    ensures
        match r {
            Ok(s) => spec_req_str(*v, key@) == Some(s),
            Err(_) => spec_req_str(*v, key@) is None,
        },
{
    match v.get(key) {
        Some(JsonValue::Text(s)) => Ok(s.clone()),
        _ => Err(()),
    }
}

/// Reads an optional string member.
pub fn opt_str(v: &JsonValue, key: &str) -> (r: Result<Option<String>, ()>)
    ensures
        match r {
            Ok(o) => spec_opt_str(*v, key@) == Some(o),
            Err(_) => spec_opt_str(*v, key@) is None,
        },
{
    match v.get(key) {
        None => Ok(None),
        Some(JsonValue::Null) => Ok(None),
        Some(JsonValue::Text(s)) => Ok(Some(s.clone())),
        Some(_) => Err(()),
    }
}

/// Reads an optional unsigned member no larger than `max`.
pub fn opt_uint(v: &JsonValue, key: &str, max: u64) -> (r: Result<Option<u64>, ()>)
    ensures
        match r {
            Ok(o) => spec_opt_uint(*v, key@, max) == Some(o),
            Err(_) => spec_opt_uint(*v, key@, max) is None,
        },
{
    match v.get(key) {
        None => Ok(None),
        Some(JsonValue::Null) => Ok(None),
        Some(JsonValue::UInt(n)) => {
            if *n <= max {
                Ok(Some(*n))
            } else {
                Err(())
            }
        },
        Some(_) => Err(()),
    }
}

/// Reads a required unsigned member no larger than `max`.
pub fn req_uint(v: &JsonValue, key: &str, max: u64) -> (r: Result<u64, ()>)
    ensures
        match r {
            Ok(n) => spec_req_uint(*v, key@, max) == Some(n),
            Err(_) => spec_req_uint(*v, key@, max) is None,
        },
{
    match v.get(key) {
        Some(JsonValue::UInt(n)) => {
            if *n <= max {
                Ok(*n)
            } else {
                Err(())
            }
        },
        _ => Err(()),
    }
}

/// Reads a boolean member, taking `false` when it is absent.
pub fn bool_or_false(v: &JsonValue, key: &str) -> (r: Result<bool, ()>)
    ensures
        match r {
            Ok(b) => spec_bool_or_false(*v, key@) == Some(b),
            Err(_) => spec_bool_or_false(*v, key@) is None,
        },
{
    match v.get(key) {
        None => Ok(false),
        Some(JsonValue::Bool(b)) => Ok(*b),
        Some(_) => Err(()),
    }
}

/// The strings a JSON array holds, when every element is a string.
pub open spec fn texts_of(items: Seq<JsonValue>) -> Option<Seq<String>>
    decreases items.len(),
{
    if items.len() == 0 {
        Some(Seq::empty())
    } else {
        match (texts_of(items.drop_last()), items.last()) {
            (Some(ts), JsonValue::Text(s)) => Some(ts.push(s)),
            _ => None,
        }
    }
}

/// A list-of-strings member that defaults to empty when absent.
pub open spec fn spec_str_list(v: JsonValue, key: Seq<char>) -> Option<Seq<String>> {
    match json_get(v, key) {
        None => Some(Seq::empty()),
        Some(JsonValue::Array(items)) => texts_of(items@),
        Some(_) => None,
    }
}

/// Reads a list-of-strings member, taking the empty list when it is absent.
pub fn str_list_or_empty(v: &JsonValue, key: &str) -> (r: Result<Vec<String>, ()>)
    ensures
        match r {
            Ok(ts) => spec_str_list(*v, key@) == Some(ts@),
            Err(_) => spec_str_list(*v, key@) is None,
        },
{
    match v.get(key) {
        None => Ok(Vec::new()),
        Some(JsonValue::Array(items)) => {
            let mut ts: Vec<String> = Vec::new();
            let mut i: usize = 0;
            while i < items.len()
                invariant
                    0 <= i <= items@.len(),
                    json_get(*v, key@) == Some(JsonValue::Array(*items)),
                    texts_of(items@.take(i as int)) == Some(ts@),
                decreases items@.len() - i,
            {
                match &items[i] {
                    JsonValue::Text(s) => {
                        ts.push(s.clone());
                        proof {
                            let t = items@.take(i + 1);
                            assert(t.drop_last() =~= items@.take(i as int));
                            assert(t.last() == items@[i as int]);
                        }
                    },
                    _ => {
                        proof {
                            lemma_texts_of_nontext(items@, i as int);
                        }
                        return Err(());
                    },
                }
                i = i + 1;
            }
            proof {
                assert(items@.take(items@.len() as int) =~= items@);
            }
            Ok(ts)
        },
        Some(_) => Err(()),
    }
}

/// A non-string element anywhere makes the whole array refuse.
proof fn lemma_texts_of_nontext(items: Seq<JsonValue>, i: int)
    requires
        0 <= i < items.len(),
        !(items[i] is Text),
    ensures
        texts_of(items) is None,
    decreases items.len(),
{
    if i < items.len() - 1 {
        lemma_texts_of_nontext(items.drop_last(), i);
    }
}

/// Reads a required boolean member.
pub fn req_bool(v: &JsonValue, key: &str) -> (r: Result<bool, ()>)
    ensures
        match r {
            Ok(b) => spec_req_bool(*v, key@) == Some(b),
            Err(_) => spec_req_bool(*v, key@) is None,
        },
{
    match v.get(key) {
        Some(JsonValue::Bool(b)) => Ok(*b),
        _ => Err(()),
    }
}

} // verus!

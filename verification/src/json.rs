//! The library's own model of a decoded JSON document. The classifier reads
//! response bodies through this type, so everything it decides is verified;
//! only the decoding step itself is delegated to an outside JSON parser.

use vstd::prelude::*;

verus! {

/// A decoded JSON document. Object entries keep the decoder's order; numbers
/// that do not fit a signed 64-bit integer (including all fractions) keep
/// only that fact, which is all the response classifier ever needs of them.
#[derive(Debug)]
pub enum JsonValue {
    Null,
    Bool(bool),
    Int(i64),
    BigNum,
    Str(String),
    Arr(Vec<JsonValue>),
    Obj(Vec<(String, JsonValue)>),
}

/// What the outside JSON parser returns on the given bytes: the decoded
/// document, or nothing when the parser refuses them. The parse depends on
/// the bytes alone.
pub uninterp spec fn json_of(bytes: Seq<u8>) -> Option<JsonValue>;

/// Relies on serde_json::from_slice with serde_json::Value as the target:
/// it decodes the bytes or fails — on bytes that are not valid JSON, or on
/// documents nested beyond the parser's depth bound — and the result
/// depends on the bytes alone.
#[verifier::external_body]
pub fn decode_json(body: &Vec<u8>) -> (r: Option<JsonValue>)
    ensures
        r == json_of(body@),
{
    match serde_json::from_slice::<serde_json::Value>(body.as_slice()) {
        Ok(v) => Some(convert_json(v)),
        Err(_) => None,
    }
}

#[verifier::external_type_specification]
#[verifier::external_body]
pub struct ExValue(serde_json::Value);

/// Relies on the public variants of serde_json::Value: each is moved, one
/// for one, into the library's own form; a number is kept when it fits a
/// signed 64-bit integer. Called by decode_json alone.
#[verifier::external_body]
fn convert_json(v: serde_json::Value) -> JsonValue {
    match v {
        serde_json::Value::Null => JsonValue::Null,
        serde_json::Value::Bool(b) => JsonValue::Bool(b),
        serde_json::Value::Number(n) => match n.as_i64() {
            Some(i) => JsonValue::Int(i),
            None => JsonValue::BigNum,
        },
        serde_json::Value::String(s) => JsonValue::Str(s),
        serde_json::Value::Array(a) => JsonValue::Arr(a.into_iter().map(convert_json).collect()),
        serde_json::Value::Object(m) => JsonValue::Obj(
            m.into_iter().map(|(k, val)| (k, convert_json(val))).collect(),
        ),
    }
}

/// The first entry with the given key, if any.
pub open spec fn spec_lookup(entries: Seq<(String, JsonValue)>, key: Seq<char>) -> Option<
    JsonValue,
>
    decreases entries.len(),
{
    if entries.len() == 0 {
        None
    } else if entries[0].0@ == key {
        Some(entries[0].1)
    } else {
        spec_lookup(entries.drop_first(), key)
    }
}

impl JsonValue {
    /// The entry under the given key at the top level, when this document is
    /// an object holding one.
    pub open spec fn spec_get(self, key: Seq<char>) -> Option<JsonValue> {
        match self {
            JsonValue::Obj(entries) => spec_lookup(entries@, key),
            _ => None,
        }
    }

    pub open spec fn spec_as_str(self) -> Option<String> {
        match self {
            JsonValue::Str(s) => Some(s),
            _ => None,
        }
    }

    pub open spec fn spec_as_bool(self) -> Option<bool> {
        match self {
            JsonValue::Bool(b) => Some(b),
            _ => None,
        }
    }

    pub open spec fn spec_as_int(self) -> Option<i64> {
        match self {
            JsonValue::Int(i) => Some(i),
            _ => None,
        }
    }

    /// The string under the given key, when there is one.
    pub open spec fn spec_str_entry(self, key: Seq<char>) -> Option<String> {
        match self.spec_get(key) {
            Some(v) => v.spec_as_str(),
            None => None,
        }
    }

    /// The boolean under the given key, when there is one.
    pub open spec fn spec_bool_entry(self, key: Seq<char>) -> Option<bool> {
        match self.spec_get(key) {
            Some(v) => v.spec_as_bool(),
            None => None,
        }
    }

    /// Looks up the first entry with the given key at the top level of an
    /// object document; anything else holds no entries.
    pub fn get<'a>(&'a self, key: &str) -> (r: Option<&'a JsonValue>)
        ensures
            match r {
                Some(v) => self.spec_get(key@) == Some(*v),
                None => self.spec_get(key@) is None,
            },
    {
        match self {
            JsonValue::Obj(entries) => {
                let k = key.to_owned();
                let n = entries.len();
                assert(entries@.skip(0) =~= entries@);
                for i in 0..n
                    invariant
                        n == entries@.len(),
                        k@ == key@,
                        self.spec_get(key@) == spec_lookup(entries@, key@),
                        spec_lookup(entries@.skip(i as int), key@) == spec_lookup(
                            entries@,
                            key@,
                        ),
                {
                    assert(entries@.skip(i as int)[0] == entries@[i as int]);
                    if entries[i].0.eq(&k) {
                        assert(spec_lookup(entries@.skip(i as int), key@) == Some(
                            entries@[i as int].1,
                        ));
                        return Some(&entries[i].1);
                    }
                    assert(entries@.skip(i as int).drop_first() =~= entries@.skip(i as int + 1));
                    assert(spec_lookup(entries@.skip(i as int), key@) == spec_lookup(
                        entries@.skip(i as int + 1),
                        key@,
                    ));
                }
                assert(entries@.skip(n as int) =~= Seq::empty());
                None
            },
            _ => None,
        }
    }

    pub fn as_str(&self) -> (r: Option<&String>)
        ensures
            match r {
                Some(s) => self.spec_as_str() == Some(*s),
                None => self.spec_as_str() is None,
            },
    {
        match self {
            JsonValue::Str(s) => Some(s),
            _ => None,
        }
    }

    pub fn as_bool(&self) -> (r: Option<bool>)
        ensures
            r == self.spec_as_bool(),
    {
        match self {
            JsonValue::Bool(b) => Some(*b),
            _ => None,
        }
    }

    pub fn as_int(&self) -> (r: Option<i64>)
        ensures
            r == self.spec_as_int(),
    {
        match self {
            JsonValue::Int(i) => Some(*i),
            _ => None,
        }
    }

    /// A copy of the string under the given key, when there is one.
    pub fn str_entry(&self, key: &str) -> (r: Option<String>)
        ensures
            r == self.spec_str_entry(key@),
    {
        match self.get(key) {
            Some(v) => match v.as_str() {
                Some(s) => Some(s.clone()),
                None => None,
            },
            None => None,
        }
    }

    /// The boolean under the given key, when there is one.
    pub fn bool_entry(&self, key: &str) -> (r: Option<bool>)
        ensures
            r == self.spec_bool_entry(key@),
    {
        match self.get(key) {
            Some(v) => v.as_bool(),
            None => None,
        }
    }
}

} // verus!

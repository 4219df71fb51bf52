//! Permissive field extraction from a reply object.
//!
//! Every attribute is optional: an absent key decodes to `None`, a key
//! present with the wrong JSON kind is an [`DeserializeError::InvalidType`]
//! naming the expected kind and the field, and nothing else fails.

use vstd::prelude::*;
use crate::error::{DeserializeError, DeserializeErrorV};
use crate::json::{Json, Jv, jv_of_entries, obj_get, obj_lookup};
use crate::types::{Priority, Status, priority_of, status_of};

verus! {

/// The unsigned integer under a key: absent is fine; anything but an
/// integer in range is the wrong kind.
pub open spec fn u64_field(m: Seq<(Seq<char>, Jv)>, key: Seq<char>) -> Result<
    Option<u64>,
    DeserializeErrorV,
> {
    match obj_get(m, key) {
        None => Ok(None),
        Some(v) => match v {
            Jv::Int(x) => if 0 <= x <= u64::MAX {
                Ok(Some(x as u64))
            } else {
                Err(DeserializeErrorV::InvalidType("number"@, key))
            },
            _ => Err(DeserializeErrorV::InvalidType("number"@, key)),
        },
    }
}

/// The signed integer under a key.
pub open spec fn i64_field(m: Seq<(Seq<char>, Jv)>, key: Seq<char>) -> Result<
    Option<i64>,
    DeserializeErrorV,
> {
    match obj_get(m, key) {
        None => Ok(None),
        Some(v) => match v {
            Jv::Int(x) => if i64::MIN <= x <= i64::MAX {
                Ok(Some(x as i64))
            } else {
                Err(DeserializeErrorV::InvalidType("number"@, key))
            },
            _ => Err(DeserializeErrorV::InvalidType("number"@, key)),
        },
    }
}

/// The boolean under a key.
pub open spec fn bool_field(m: Seq<(Seq<char>, Jv)>, key: Seq<char>) -> Result<
    Option<bool>,
    DeserializeErrorV,
> {
    match obj_get(m, key) {
        None => Ok(None),
        Some(v) => match v {
            Jv::Bool(b) => Ok(Some(b)),
            _ => Err(DeserializeErrorV::InvalidType("boolean"@, key)),
        },
    }
}

/// The string under a key.
pub open spec fn string_field(m: Seq<(Seq<char>, Jv)>, key: Seq<char>) -> Result<
    Option<Seq<char>>,
    DeserializeErrorV,
> {
    match obj_get(m, key) {
        None => Ok(None),
        Some(v) => match v {
            Jv::Str(s) => Ok(Some(s)),
            _ => Err(DeserializeErrorV::InvalidType("string"@, key)),
        },
    }
}

/// The status under a key: a number that stands for a known state.
pub open spec fn status_field(m: Seq<(Seq<char>, Jv)>, key: Seq<char>) -> Result<
    Option<Status>,
    DeserializeErrorV,
> {
    match obj_get(m, key) {
        None => Ok(None),
        Some(v) => match v {
            Jv::Int(x) => match status_of(x) {
                Some(st) => Ok(Some(st)),
                None => Err(DeserializeErrorV::InvalidType("status"@, key)),
            },
            _ => Err(DeserializeErrorV::InvalidType("number"@, key)),
        },
    }
}

/// The priority under a key: a number that stands for a known priority.
pub open spec fn priority_field(m: Seq<(Seq<char>, Jv)>, key: Seq<char>) -> Result<
    Option<Priority>,
    DeserializeErrorV,
> {
    match obj_get(m, key) {
        None => Ok(None),
        Some(v) => match v {
            Jv::Int(x) => match priority_of(x) {
                Some(p) => Ok(Some(p)),
                None => Err(DeserializeErrorV::InvalidType("priority"@, key)),
            },
            _ => Err(DeserializeErrorV::InvalidType("number"@, key)),
        },
    }
}

/// The wrong-kind error for a key, as an executable value.
pub fn invalid(kind: &str, key: &str) -> (r: DeserializeError)
    ensures
        r@ == DeserializeErrorV::InvalidType(kind@, key@),
{
    DeserializeError::InvalidType(String::from_str(kind), String::from_str(key))
}

/// The missing-field error for a key, as an executable value.
pub fn missing(key: &str) -> (r: DeserializeError)
    ensures
        r@ == DeserializeErrorV::MissingField(key@),
{
    DeserializeError::MissingField(String::from_str(key))
}

/// Extracts the unsigned integer under `key` from an entry list.
pub fn get_u64(ms: &Vec<(String, Json)>, key: &str) -> (r: Result<Option<u64>, DeserializeError>)
    ensures
        match r {
            Ok(o) => u64_field(jv_of_entries(ms@), key@) == Ok::<_, DeserializeErrorV>(o),
            Err(e) => u64_field(jv_of_entries(ms@), key@) == Err::<Option<u64>, _>(e@),
        },
{
    match obj_lookup(ms, key) {
        None => Ok(None),
        Some(j) => match j {
            Json::Int(x) => if *x >= 0 {
                Ok(Some(*x as u64))
            } else {
                Err(invalid("number", key))
            },
            _ => Err(invalid("number", key)),
        },
    }
}

/// Extracts the signed integer under `key` from an entry list.
pub fn get_i64(ms: &Vec<(String, Json)>, key: &str) -> (r: Result<Option<i64>, DeserializeError>)
    ensures
        match r {
            Ok(o) => i64_field(jv_of_entries(ms@), key@) == Ok::<_, DeserializeErrorV>(o),
            Err(e) => i64_field(jv_of_entries(ms@), key@) == Err::<Option<i64>, _>(e@),
        },
{
    match obj_lookup(ms, key) {
        None => Ok(None),
        Some(j) => match j {
            Json::Int(x) => Ok(Some(*x)),
            _ => Err(invalid("number", key)),
        },
    }
}

/// Extracts the boolean under `key` from an entry list.
pub fn get_bool(ms: &Vec<(String, Json)>, key: &str) -> (r: Result<Option<bool>, DeserializeError>)
    ensures
        match r {
            Ok(o) => bool_field(jv_of_entries(ms@), key@) == Ok::<_, DeserializeErrorV>(o),
            Err(e) => bool_field(jv_of_entries(ms@), key@) == Err::<Option<bool>, _>(e@),
        },
{
    match obj_lookup(ms, key) {
        None => Ok(None),
        Some(j) => match j {
            Json::Bool(b) => Ok(Some(*b)),
            _ => Err(invalid("boolean", key)),
        },
    }
}

/// Extracts the string under `key` from an entry list.
pub fn get_string(ms: &Vec<(String, Json)>, key: &str) -> (r: Result<
    Option<String>,
    DeserializeError,
>)
    ensures
        match r {
            Ok(o) => string_field(jv_of_entries(ms@), key@) == Ok::<_, DeserializeErrorV>(
                match o {
                    Some(s) => Some(s@),
                    None => None,
                },
            ),
            Err(e) => string_field(jv_of_entries(ms@), key@) == Err::<Option<Seq<char>>, _>(e@),
        },
{
    match obj_lookup(ms, key) {
        None => Ok(None),
        Some(j) => match j {
            Json::Str(s) => Ok(Some(s.clone())),
            _ => Err(invalid("string", key)),
        },
    }
}

/// Extracts the status under `key` from an entry list.
pub fn get_status(ms: &Vec<(String, Json)>, key: &str) -> (r: Result<
    Option<Status>,
    DeserializeError,
>)
    ensures
        match r {
            Ok(o) => status_field(jv_of_entries(ms@), key@) == Ok::<_, DeserializeErrorV>(o),
            Err(e) => status_field(jv_of_entries(ms@), key@) == Err::<Option<Status>, _>(e@),
        },
{
    match obj_lookup(ms, key) {
        None => Ok(None),
        Some(j) => match j {
            Json::Int(x) => match Status::from_i64(*x) {
                Some(st) => Ok(Some(st)),
                None => Err(invalid("status", key)),
            },
            _ => Err(invalid("number", key)),
        },
    }
}

/// Extracts the priority under `key` from an entry list.
pub fn get_priority(ms: &Vec<(String, Json)>, key: &str) -> (r: Result<
    Option<Priority>,
    DeserializeError,
>)
    ensures
        match r {
            Ok(o) => priority_field(jv_of_entries(ms@), key@) == Ok::<_, DeserializeErrorV>(o),
            Err(e) => priority_field(jv_of_entries(ms@), key@) == Err::<Option<Priority>, _>(e@),
        },
{
    match obj_lookup(ms, key) {
        None => Ok(None),
        Some(j) => match j {
            Json::Int(x) => match Priority::from_i64(*x) {
                Some(p) => Ok(Some(p)),
                None => Err(invalid("priority", key)),
            },
            _ => Err(invalid("number", key)),
        },
    }
}

} // verus!

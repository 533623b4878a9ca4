use vstd::prelude::*;
use crate::error::{DecodeError, DecodeFailure, Fragment, FragmentModel, field_failure};
use crate::json::{Json, JsonValue, member};

verus! {

/// A string member that must be present.
pub open spec fn str_field(j: Json, key: Seq<char>) -> Result<Seq<char>, DecodeFailure> {
    match member(j, key) {
        None => Err(field_failure(key, FragmentModel::Missing)),
        Some(Json::Str(s)) => Ok(s),
        Some(x) => Err(field_failure(key, FragmentModel::Found(x))),
    }
}

/// A string member that reads as empty where it is absent.
pub open spec fn str_field_or_empty(j: Json, key: Seq<char>) -> Result<Seq<char>, DecodeFailure> {
    match member(j, key) {
        None => Ok(Seq::empty()),
        Some(Json::Str(s)) => Ok(s),
        Some(x) => Err(field_failure(key, FragmentModel::Found(x))),
    }
}

/// A boolean member that reads as false where it is absent.
pub open spec fn bool_field_or_false(j: Json, key: Seq<char>) -> Result<bool, DecodeFailure> {
    match member(j, key) {
        None => Ok(false),
        Some(Json::Bool(b)) => Ok(b),
        Some(x) => Err(field_failure(key, FragmentModel::Found(x))),
    }
}

/// A member of any shape that must be present.
pub open spec fn value_field(j: Json, key: Seq<char>) -> Result<Json, DecodeFailure> {
    match member(j, key) {
        None => Err(field_failure(key, FragmentModel::Missing)),
        Some(x) => Ok(x),
    }
}

/// A member of any shape that may be absent; an explicit null counts as absent.
pub open spec fn optional_field(j: Json, key: Seq<char>) -> Option<Json> {
    match member(j, key) {
        Some(Json::Null) => None,
        other => other,
    }
}

/// The failure of a whole value that is not of the kind expected.
pub open spec fn wrong_kind(j: Json) -> DecodeFailure {
    DecodeFailure { path: Seq::empty(), fragment: FragmentModel::Found(j) }
}

pub fn wrong_kind_error(j: &JsonValue) -> (r: DecodeError)
    ensures
        r@ == wrong_kind(j@),
{
    let r = DecodeError { path: Vec::new(), fragment: Fragment::Found(j.deep_clone()) };
    assert(r@.path =~= Seq::empty());
    r
}

pub fn read_str(j: &JsonValue, key: &str) -> (r: Result<String, DecodeError>)
    ensures
        match r {
            Ok(s) => str_field(j@, key@) == Ok::<Seq<char>, DecodeFailure>(s@),
            Err(e) => str_field(j@, key@) == Err::<Seq<char>, DecodeFailure>(e@),
        },
{
    match j.get(key) {
        None => Err(DecodeError::at_field(key, Fragment::Missing)),
        Some(JsonValue::Str(s)) => Ok(s.clone()),
        Some(x) => Err(DecodeError::at_field(key, Fragment::Found(x.deep_clone()))),
    }
}

pub fn read_str_or_empty(j: &JsonValue, key: &str) -> (r: Result<String, DecodeError>)
    ensures
        match r {
            Ok(s) => str_field_or_empty(j@, key@) == Ok::<Seq<char>, DecodeFailure>(s@),
            Err(e) => str_field_or_empty(j@, key@) == Err::<Seq<char>, DecodeFailure>(e@),
        },
{
    match j.get(key) {
        None => Ok(String::new()),
        Some(JsonValue::Str(s)) => Ok(s.clone()),
        Some(x) => Err(DecodeError::at_field(key, Fragment::Found(x.deep_clone()))),
    }
}

pub fn read_bool_or_false(j: &JsonValue, key: &str) -> (r: Result<bool, DecodeError>)
    ensures
        match r {
            Ok(b) => bool_field_or_false(j@, key@) == Ok::<bool, DecodeFailure>(b),
            Err(e) => bool_field_or_false(j@, key@) == Err::<bool, DecodeFailure>(e@),
        },
{
    match j.get(key) {
        None => Ok(false),
        Some(JsonValue::Bool(b)) => Ok(*b),
        Some(x) => Err(DecodeError::at_field(key, Fragment::Found(x.deep_clone()))),
    }
}

pub fn read_value(j: &JsonValue, key: &str) -> (r: Result<JsonValue, DecodeError>)
    ensures
        match r {
            Ok(x) => value_field(j@, key@) == Ok::<Json, DecodeFailure>(x@),
            Err(e) => value_field(j@, key@) == Err::<Json, DecodeFailure>(e@),
        },
{
    match j.get(key) {
        None => Err(DecodeError::at_field(key, Fragment::Missing)),
        Some(x) => Ok(x.deep_clone()),
    }
}

pub fn read_optional(j: &JsonValue, key: &str) -> (r: Option<JsonValue>)
    ensures
        r is None <==> optional_field(j@, key@) is None,
        r matches Some(x) ==> optional_field(j@, key@) == Some(x@),
{
    match j.get(key) {
        None => None,
        Some(JsonValue::Null) => None,
        Some(x) => Some(x.deep_clone()),
    }
}

} // verus!

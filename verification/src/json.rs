//! Trusted access to `serde_json`: the argument payload of a request is
//! a JSON document, read field by field through the getters below.
//! What a given text parses to is a function of that text alone, so
//! each extracted shape is given a name (`json_doc_ok`,
//! `json_i64_field`, ...) that the getters' contracts apply; the
//! verified field layer and the validators are exact over those names.

use vstd::prelude::*;

verus! {

/// Whether the text parses as a JSON document at all.
pub uninterp spec fn json_doc_ok(s: Seq<char>) -> bool;

/// Whether the document has no such top-level field (also when the
/// document is not an object).
pub uninterp spec fn json_absent_field(s: Seq<char>, key: Seq<char>) -> bool;

/// Whether the field is present and holds JSON `null`.
pub uninterp spec fn json_null_field(s: Seq<char>, key: Seq<char>) -> bool;

/// The field read as a signed 64-bit integer, where it is present and
/// an integral number in range.
pub uninterp spec fn json_i64_field(s: Seq<char>, key: Seq<char>) -> Option<i64>;

/// The field read as an unsigned 64-bit integer.
pub uninterp spec fn json_u64_field(s: Seq<char>, key: Seq<char>) -> Option<u64>;

/// The field read as a boolean.
pub uninterp spec fn json_bool_field(s: Seq<char>, key: Seq<char>) -> Option<bool>;

/// The field read as a string.
pub uninterp spec fn json_str_field(s: Seq<char>, key: Seq<char>) -> Option<Seq<char>>;

/// The field read as an array of strings (nothing when any element is
/// not a string).
pub uninterp spec fn json_str_list_field(s: Seq<char>, key: Seq<char>) -> Option<Seq<Seq<char>>>;

/// Relies on `serde_json::from_str::<Value>`: whether the text parses
/// as a JSON document; a failure carries serde_json's own error text.
#[verifier::external_body]
pub(crate) fn check_json_doc(s: &str) -> (r: Result<(), String>)
    ensures
        r is Ok <==> json_doc_ok(s@),
{
    match serde_json::from_str::<serde_json::Value>(s) {
        Ok(_) => Ok(()),
        Err(e) => Err(format!("{e:?}")),
    }
}

/// Relies on `serde_json::from_str` and `Value::get`: whether the
/// document lacks the top-level field.
#[verifier::external_body]
pub(crate) fn json_field_missing(s: &str, key: &str) -> (r: bool)
    ensures
        r == json_absent_field(s@, key@),
{
    match serde_json::from_str::<serde_json::Value>(s) {
        Ok(v) => v.get(key).is_none(),
        Err(_) => true,
    }
}

/// Relies on `serde_json::from_str`, `Value::get` and `Value::is_null`:
/// whether the field is present and null.
#[verifier::external_body]
pub(crate) fn json_field_is_null(s: &str, key: &str) -> (r: bool)
    ensures
        r == json_null_field(s@, key@),
{
    match serde_json::from_str::<serde_json::Value>(s) {
        Ok(v) => match v.get(key) {
            Some(f) => f.is_null(),
            None => false,
        },
        Err(_) => false,
    }
}

/// Relies on `serde_json::from_str`, `Value::get` and `Value::as_i64`.
#[verifier::external_body]
pub(crate) fn get_json_i64(s: &str, key: &str) -> (r: Option<i64>)
    ensures
        r == json_i64_field(s@, key@),
{
    match serde_json::from_str::<serde_json::Value>(s) {
        Ok(v) => match v.get(key) {
            Some(f) => f.as_i64(),
            None => None,
        },
        Err(_) => None,
    }
}

/// Relies on `serde_json::from_str`, `Value::get` and `Value::as_u64`.
#[verifier::external_body]
pub(crate) fn get_json_u64(s: &str, key: &str) -> (r: Option<u64>)
    ensures
        r == json_u64_field(s@, key@),
{
    match serde_json::from_str::<serde_json::Value>(s) {
        Ok(v) => match v.get(key) {
            Some(f) => f.as_u64(),
            None => None,
        },
        Err(_) => None,
    }
}

/// Relies on `serde_json::from_str`, `Value::get` and `Value::as_bool`.
#[verifier::external_body]
pub(crate) fn get_json_bool(s: &str, key: &str) -> (r: Option<bool>)
    ensures
        r == json_bool_field(s@, key@),
{
    match serde_json::from_str::<serde_json::Value>(s) {
        Ok(v) => match v.get(key) {
            Some(f) => f.as_bool(),
            None => None,
        },
        Err(_) => None,
    }
}

/// Relies on `serde_json::from_str`, `Value::get` and `Value::as_str`:
/// the field as an owned string.
#[verifier::external_body]
pub(crate) fn get_json_str(s: &str, key: &str) -> (r: Option<String>)
    ensures
        match json_str_field(s@, key@) {
            Some(t) => r matches Some(v) && v@ == t,
            None => r is None,
        },
{
    match serde_json::from_str::<serde_json::Value>(s) {
        Ok(v) => match v.get(key) {
            Some(f) => match f.as_str() {
                Some(t) => Some(t.to_owned()),
                None => None,
            },
            None => None,
        },
        Err(_) => None,
    }
}

/// Relies on `serde_json::from_str`, `Value::get`, `Value::as_array`
/// and `Value::as_str`: the field as an owned list of strings, nothing
/// when any element is not a string.
#[verifier::external_body]
pub(crate) fn get_json_str_list(s: &str, key: &str) -> (r: Option<Vec<String>>)
    ensures
        match json_str_list_field(s@, key@) {
            Some(l) => r matches Some(v) && v.deep_view() == l,
            None => r is None,
        },
{
    let doc: serde_json::Value = serde_json::from_str(s).ok()?;
    let items = doc.get(key)?.as_array()?;
    let mut out: Vec<String> = Vec::new();
    for item in items {
        out.push(item.as_str()?.to_owned());
    }
    Some(out)
}

/// The error detail for a field the document lacks.
pub open spec fn missing_detail(key: Seq<char>) -> Seq<char> {
    "missing field `"@ + key + "`"@
}

/// The error detail for a field that does not read as its type.
pub open spec fn invalid_detail(key: Seq<char>) -> Seq<char> {
    "invalid field `"@ + key + "`"@
}

/// A required integer field: missing and ill-typed fields carry their
/// error details.
pub open spec fn spec_req_i64(s: Seq<char>, key: Seq<char>) -> Result<i64, Seq<char>> {
    if json_absent_field(s, key) {
        Err(missing_detail(key))
    } else {
        match json_i64_field(s, key) {
            Some(n) => Ok(n),
            None => Err(invalid_detail(key)),
        }
    }
}

/// An optional integer field: absent or null reads as nothing.
pub open spec fn spec_opt_i64(s: Seq<char>, key: Seq<char>) -> Result<Option<i64>, Seq<char>> {
    if json_absent_field(s, key) || json_null_field(s, key) {
        Ok(None)
    } else {
        match json_i64_field(s, key) {
            Some(n) => Ok(Some(n)),
            None => Err(invalid_detail(key)),
        }
    }
}

/// An optional 32-bit unsigned field: an out-of-range number is as
/// ill-typed as a non-number.
pub open spec fn spec_opt_u32(s: Seq<char>, key: Seq<char>) -> Result<Option<u32>, Seq<char>> {
    if json_absent_field(s, key) || json_null_field(s, key) {
        Ok(None)
    } else {
        match json_u64_field(s, key) {
            Some(n) => if n <= 0xffff_ffff {
                Ok(Some(n as u32))
            } else {
                Err(invalid_detail(key))
            },
            None => Err(invalid_detail(key)),
        }
    }
}

/// An optional 64-bit unsigned field.
pub open spec fn spec_opt_u64(s: Seq<char>, key: Seq<char>) -> Result<Option<u64>, Seq<char>> {
    if json_absent_field(s, key) || json_null_field(s, key) {
        Ok(None)
    } else {
        match json_u64_field(s, key) {
            Some(n) => Ok(Some(n)),
            None => Err(invalid_detail(key)),
        }
    }
}

/// An optional boolean field.
pub open spec fn spec_opt_bool(s: Seq<char>, key: Seq<char>) -> Result<Option<bool>, Seq<char>> {
    if json_absent_field(s, key) || json_null_field(s, key) {
        Ok(None)
    } else {
        match json_bool_field(s, key) {
            Some(b) => Ok(Some(b)),
            None => Err(invalid_detail(key)),
        }
    }
}

/// A required string field.
pub open spec fn spec_req_str(s: Seq<char>, key: Seq<char>) -> Result<Seq<char>, Seq<char>> {
    if json_absent_field(s, key) {
        Err(missing_detail(key))
    } else {
        match json_str_field(s, key) {
            Some(t) => Ok(t),
            None => Err(invalid_detail(key)),
        }
    }
}

/// An optional string field.
pub open spec fn spec_opt_str(s: Seq<char>, key: Seq<char>) -> Result<
    Option<Seq<char>>,
    Seq<char>,
> {
    if json_absent_field(s, key) || json_null_field(s, key) {
        Ok(None)
    } else {
        match json_str_field(s, key) {
            Some(t) => Ok(Some(t)),
            None => Err(invalid_detail(key)),
        }
    }
}

/// A required string-list field.
pub open spec fn spec_req_str_list(s: Seq<char>, key: Seq<char>) -> Result<
    Seq<Seq<char>>,
    Seq<char>,
> {
    if json_absent_field(s, key) {
        Err(missing_detail(key))
    } else {
        match json_str_list_field(s, key) {
            Some(l) => Ok(l),
            None => Err(invalid_detail(key)),
        }
    }
}

} // verus!

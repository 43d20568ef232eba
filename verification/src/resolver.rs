//! The response resolver: the one place that decides whether a raw
//! response body is a success, a structured API error, or a failure to
//! deserialize.
//!
//! The decision is structural, in a fixed priority order. First the body
//! is parsed as JSON; a body that is not JSON resolves to a
//! deserialization error. A parsed body that carries the current error
//! shape — an `"error"` object with `"name"` and `"message"` strings —
//! resolves to the API-reported error under that name, even if the body
//! would also deserialize as the expected success type. Next the legacy
//! shape — an `"error"` field holding a bare message string — is taken
//! as an API-reported error without a machine-readable name. Only then
//! does the caller's own typed parse decide between success and a
//! deserialization error. A body that merely contains the word "error"
//! somewhere is never, by that alone, treated as an error.

use vstd::prelude::*;
use crate::errors::{spec_api_error_name, api_error_name_of, ApiErrorName, ErrorKind,
    ResponseError};
use crate::json::{parse_json, spec_json_parse, Json};
use crate::text::str_eq;

verus! {

/// The first value under `key` among an object's fields.
pub open spec fn spec_obj_get(fields: Seq<(String, Json)>, key: Seq<char>) -> Option<Json>
    decreases fields.len(),
{
    if fields.len() == 0 {
        None
    } else if fields[0].0@ == key {
        Some(fields[0].1)
    } else {
        spec_obj_get(fields.drop_first(), key)
    }
}

/// The current error shape: an `"error"` object carrying string
/// `"name"` and `"message"` fields. Yields (name, message).
pub open spec fn spec_current_error(j: Json) -> Option<(Seq<char>, Seq<char>)> {
    match j {
        Json::Object(fields) => match spec_obj_get(fields@, "error"@) {
            Some(e) => match e {
                Json::Object(ef) => match (
                    spec_obj_get(ef@, "name"@),
                    spec_obj_get(ef@, "message"@),
                ) {
                    (Some(Json::Text(n)), Some(Json::Text(m))) => Some((n@, m@)),
                    _ => None,
                },
                _ => None,
            },
            None => None,
        },
        _ => None,
    }
}

/// The legacy error shape: an `"error"` field holding the message
/// directly, with no machine-readable name.
pub open spec fn spec_legacy_error(j: Json) -> Option<Seq<char>> {
    match j {
        Json::Object(fields) => match spec_obj_get(fields@, "error"@) {
            Some(e) => match e {
                Json::Text(m) => Some(m@),
                _ => None,
            },
            None => None,
        },
        _ => None,
    }
}

/// A resolver outcome at the level of views: the success value, or the
/// error's kind, name, and message.
pub open spec fn spec_err_view(e: ResponseError) -> (ErrorKind, Seq<char>, Seq<char>) {
    (e.kind, e.name@, e.message@)
}

/// The view of a resolver result.
pub open spec fn spec_result_view<T>(r: Result<T, ResponseError>) -> Result<
    T,
    (ErrorKind, Seq<char>, Seq<char>),
> {
    match r {
        Ok(t) => Ok(t),
        Err(e) => Err(spec_err_view(e)),
    }
}

/// The view of the caller's typed parse attempt.
pub open spec fn spec_attempt_view<T>(success: Result<T, String>) -> Result<T, Seq<char>> {
    match success {
        Ok(t) => Ok(t),
        Err(d) => Err(d@),
    }
}

/// What the resolver returns, as a function of the parsed body and the
/// caller's typed parse attempt. This pins every outcome: the resolver
/// is deterministic and total.
pub open spec fn spec_resolve<T>(parsed: Option<Json>, attempt: Result<T, Seq<char>>) -> Result<
    T,
    (ErrorKind, Seq<char>, Seq<char>),
> {
    match parsed {
        None => Err(
            (
                ErrorKind::Deserialization,
                "internal_json_parse_error"@,
                "the response body is not valid JSON."@,
            ),
        ),
        Some(j) => match spec_current_error(j) {
            Some(nm) => Err((ErrorKind::ApiReported(spec_api_error_name(nm.0)), nm.0, nm.1)),
            None => match spec_legacy_error(j) {
                Some(m) => Err((ErrorKind::ApiReported(ApiErrorName::Unknown), ""@, m)),
                None => match attempt {
                    Ok(t) => Ok(t),
                    Err(d) => Err((ErrorKind::Deserialization, "internal_json_parse_error"@, d)),
                },
            },
        },
    }
}

/// Looks up the first value under `key` among an object's fields.
fn obj_get<'a>(fields: &'a Vec<(String, Json)>, key: &str) -> (r: Option<&'a Json>)
    ensures
        r matches Some(j) ==> spec_obj_get(fields@, key@) == Some(*j),
        r is None ==> spec_obj_get(fields@, key@) is None,
{
    let n = fields.len();
    let mut i: usize = 0;
    proof {
        assert(fields@.skip(0) =~= fields@);
    }
    while i < n
        invariant
            n == fields@.len(),
            i <= n,
            spec_obj_get(fields@, key@) == spec_obj_get(fields@.skip(i as int), key@),
        decreases n - i,
    {
        let pair = &fields[i];
        if str_eq(pair.0.as_str(), key) {
            proof {
                assert(fields@.skip(i as int)[0] == fields@[i as int]);
            }
            return Some(&fields[i].1);
        }
        proof {
            assert(fields@.skip(i as int)[0] == fields@[i as int]);
            assert(fields@.skip(i as int).drop_first() =~= fields@.skip(i + 1));
        }
        i += 1;
    }
    proof {
        assert(fields@.skip(n as int) =~= Seq::<(String, Json)>::empty());
    }
    None
}

/// Extracts the current error shape, if the value carries it.
fn current_error(j: &Json) -> (r: Option<(String, String)>)
    ensures
        r matches Some(p) ==> spec_current_error(*j) == Some((p.0@, p.1@)),
        r is None ==> spec_current_error(*j) is None,
{
    match j {
        Json::Object(fields) => match obj_get(fields, "error") {
            Some(e) => match e {
                Json::Object(ef) => match (obj_get(ef, "name"), obj_get(ef, "message")) {
                    (Some(n), Some(m)) => match (n, m) {
                        (Json::Text(n), Json::Text(m)) => Some((n.clone(), m.clone())),
                        _ => None,
                    },
                    _ => None,
                },
                _ => None,
            },
            None => None,
        },
        _ => None,
    }
}

/// Extracts the legacy error shape, if the value carries it.
fn legacy_error(j: &Json) -> (r: Option<String>)
    ensures
        r matches Some(m) ==> spec_legacy_error(*j) == Some(m@),
        r is None ==> spec_legacy_error(*j) is None,
{
    match j {
        Json::Object(fields) => match obj_get(fields, "error") {
            Some(e) => match e {
                Json::Text(m) => Some(m.clone()),
                _ => None,
            },
            None => None,
        },
        _ => None,
    }
}

/// Resolves a raw response body.
///
/// `attempt` is the caller's try at deserializing the body as the
/// expected success type; its `Err` carries the parse diagnostic, which
/// is preserved in a deserialization failure. The result is exactly
/// `spec_resolve` of the parsed body and the attempt: API-reported
/// errors win over a successful typed parse, and a body matching no
/// known shape is a `Deserialization` error — never a default value.
pub fn resolve<T>(body: &str, attempt: Result<T, String>) -> (r: Result<T, ResponseError>)
    ensures
        spec_result_view(r) == spec_resolve(spec_json_parse(body@), spec_attempt_view(attempt)),
{
    match parse_json(body) {
        None => Err(ResponseError {
            kind: ErrorKind::Deserialization,
            name: "internal_json_parse_error".to_owned(),
            message: "the response body is not valid JSON.".to_owned(),
        }),
        Some(j) => {
            match current_error(&j) {
                Some(nm) => {
                    let kind = api_error_name_of(nm.0.as_str());
                    Err(ResponseError { kind: ErrorKind::ApiReported(kind), name: nm.0, message: nm.1 })
                },
                None => match legacy_error(&j) {
                    Some(m) => Err(ResponseError {
                        kind: ErrorKind::ApiReported(ApiErrorName::Unknown),
                        name: "".to_owned(),
                        message: m,
                    }),
                    None => match attempt {
                        Ok(t) => Ok(t),
                        Err(d) => Err(ResponseError {
                            kind: ErrorKind::Deserialization,
                            name: "internal_json_parse_error".to_owned(),
                            message: d,
                        }),
                    },
                },
            }
        },
    }
}

/// Resolution is deterministic: resolving the same body with the same
/// typed parse attempt twice yields structurally equal outcomes — equal
/// success values, or errors equal in kind, name, and message.
pub proof fn lemma_resolver_idempotent<T>(
    parsed: Option<Json>,
    attempt: Result<T, Seq<char>>,
    r1: Result<T, (ErrorKind, Seq<char>, Seq<char>)>,
    r2: Result<T, (ErrorKind, Seq<char>, Seq<char>)>,
)
    requires
        r1 == spec_resolve(parsed, attempt),
        r2 == spec_resolve(parsed, attempt),
    ensures
        r1 == r2,
{
}

} // verus!

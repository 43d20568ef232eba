//! The resolver: structural classification of response bodies in the
//! fixed priority order, idempotence, and never a defaulted success.

use upbit_client::errors::{ApiErrorName, ErrorKind};
use upbit_client::resolver::resolve;

#[test]
fn known_error_body_resolves_to_api_reported() {
    let body = "{\"error\":{\"name\":\"invalid_access_key\",\"message\":\"m\"}}";
    let r: Result<i32, _> = resolve(body, Err("no i32 here".to_string()));
    let e = r.unwrap_err();
    assert_eq!(e.kind, ErrorKind::ApiReported(ApiErrorName::InvalidAccessKey));
    assert_eq!(e.name, "invalid_access_key");
    assert_eq!(e.message, "m");
}

#[test]
fn error_body_wins_even_over_a_successful_typed_parse() {
    // A bare error object can deserialize as many lenient success types;
    // the resolver must still report the error, never the garbage value.
    let body = "{\"error\":{\"name\":\"jwt_verification\",\"message\":\"bad token\"}}";
    let r: Result<i32, _> = resolve(body, Ok(0));
    let e = r.unwrap_err();
    assert_eq!(e.kind, ErrorKind::ApiReported(ApiErrorName::JwtVerification));
    assert_eq!(e.message, "bad token");
}

#[test]
fn unknown_error_name_passes_through() {
    let body = "{\"error\":{\"name\":\"brand_new_failure\",\"message\":\"later\"}}";
    let r: Result<i32, _> = resolve(body, Err("d".to_string()));
    let e = r.unwrap_err();
    assert_eq!(e.kind, ErrorKind::ApiReported(ApiErrorName::Unknown));
    assert_eq!(e.name, "brand_new_failure");
    assert_eq!(e.message, "later");
}

#[test]
fn legacy_error_shape_is_the_fallback() {
    let body = "{\"error\":\"maintenance window\"}";
    let r: Result<i32, _> = resolve(body, Err("d".to_string()));
    let e = r.unwrap_err();
    assert_eq!(e.kind, ErrorKind::ApiReported(ApiErrorName::Unknown));
    assert_eq!(e.name, "");
    assert_eq!(e.message, "maintenance window");
}

#[test]
fn valid_json_matching_no_shape_is_deserialization_not_default() {
    let body = "{\"unexpected\":\"shape\"}";
    let diag = "missing field `market`".to_string();
    let r: Result<i32, _> = resolve(body, Err(diag.clone()));
    let e = r.unwrap_err();
    assert_eq!(e.kind, ErrorKind::Deserialization);
    assert_eq!(e.name, "internal_json_parse_error");
    assert_eq!(e.message, diag);
}

#[test]
fn invalid_json_is_deserialization() {
    let body = "not json at all";
    let r: Result<i32, _> = resolve(body, Err("d".to_string()));
    let e = r.unwrap_err();
    assert_eq!(e.kind, ErrorKind::Deserialization);
}

#[test]
fn success_body_resolves_to_the_typed_value() {
    let body = "{\"market\":\"KRW-ETH\"}";
    let r: Result<i32, _> = resolve(body, Ok(7));
    assert_eq!(r.unwrap(), 7);
}

#[test]
fn the_substring_error_alone_is_no_error_signal() {
    // A success payload that legitimately contains the word "error" —
    // here a null-valued field of that name — must resolve as success.
    let body = "{\"error\":null,\"price\":\"1.5\"}";
    let r: Result<u32, _> = resolve(body, Ok(3));
    assert_eq!(r.unwrap(), 3);
}

#[test]
fn resolving_the_same_body_twice_is_idempotent() {
    let err_body = "{\"error\":{\"name\":\"nonce_used\",\"message\":\"again\"}}";
    let e1 = resolve::<i32>(err_body, Err("d".to_string())).unwrap_err();
    let e2 = resolve::<i32>(err_body, Err("d".to_string())).unwrap_err();
    assert_eq!(e1.kind, e2.kind);
    assert_eq!(e1.name, e2.name);
    assert_eq!(e1.message, e2.message);

    let ok_body = "{\"fine\":true}";
    let r1: Result<i32, _> = resolve(ok_body, Ok(42));
    let r2: Result<i32, _> = resolve(ok_body, Ok(42));
    assert_eq!(r1.unwrap(), r2.unwrap());
}

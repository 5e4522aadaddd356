use pleme_health::checks::u16_decimal;
use pleme_health::{cache_verdict, database_verdict, endpoint_verdict, CacheFailure, CheckStatus};

#[test]
fn decimal_formatting() {
    assert_eq!(u16_decimal(0), String::from("0"));
    assert_eq!(u16_decimal(9), String::from("9"));
    assert_eq!(u16_decimal(10), String::from("10"));
    assert_eq!(u16_decimal(200), String::from("200"));
    assert_eq!(u16_decimal(503), String::from("503"));
    assert_eq!(u16_decimal(65535), String::from("65535"));
}

#[test]
fn database_success_carries_duration() {
    let r = database_verdict(Ok(17));
    assert_eq!(r.status, CheckStatus::Healthy);
    assert_eq!(r.message, None);
    assert_eq!(r.duration_ms, Some(17));
}

#[test]
fn database_failure_names_the_error() {
    let r = database_verdict(Err(String::from("connection refused")));
    assert_eq!(r.status, CheckStatus::Unhealthy);
    assert_eq!(
        r.message,
        Some(String::from("Database connection failed: connection refused"))
    );
    assert_eq!(r.duration_ms, None);
}

#[test]
fn cache_success_carries_duration() {
    let r = cache_verdict(Ok(3));
    assert_eq!(r.status, CheckStatus::Healthy);
    assert_eq!(r.message, None);
    assert_eq!(r.duration_ms, Some(3));
}

#[test]
fn cache_failure_points_get_distinct_messages() {
    let client = cache_verdict(Err((CacheFailure::ClientCreation, String::from("bad url"))));
    let connect = cache_verdict(Err((CacheFailure::Connection, String::from("bad url"))));
    let operation = cache_verdict(Err((CacheFailure::Operation, String::from("bad url"))));
    assert_eq!(client.status, CheckStatus::Unhealthy);
    assert_eq!(connect.status, CheckStatus::Unhealthy);
    assert_eq!(operation.status, CheckStatus::Unhealthy);
    assert_eq!(
        client.message,
        Some(String::from("Redis client creation failed: bad url"))
    );
    assert_eq!(
        connect.message,
        Some(String::from("Redis connection failed: bad url"))
    );
    assert_eq!(
        operation.message,
        Some(String::from("Redis check failed: bad url"))
    );
    assert_ne!(client.message, connect.message);
    assert_ne!(connect.message, operation.message);
    assert_ne!(client.message, operation.message);
}

#[test]
fn endpoint_match_passes_naming_the_code() {
    let r = endpoint_verdict(200, Ok((200, 12)));
    assert_eq!(r.status, CheckStatus::Healthy);
    assert_eq!(r.message, Some(String::from("HTTP 200 OK")));
    assert_eq!(r.duration_ms, Some(12));
}

#[test]
fn endpoint_mismatch_names_both_codes() {
    let r = endpoint_verdict(200, Ok((503, 12)));
    assert_eq!(r.status, CheckStatus::Unhealthy);
    assert_eq!(r.message, Some(String::from("Expected status 200, got 503")));
    assert_eq!(r.duration_ms, None);
}

#[test]
fn endpoint_transport_failure_names_the_error() {
    let r = endpoint_verdict(200, Err(String::from("dns error")));
    assert_eq!(r.status, CheckStatus::Unhealthy);
    assert_eq!(r.message, Some(String::from("HTTP request failed: dns error")));
    assert_eq!(r.duration_ms, None);
}

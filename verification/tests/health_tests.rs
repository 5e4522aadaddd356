use pleme_health::{CheckResult, CheckStatus, HealthCheckBuilder, HealthResponse, HealthRoutes};

/// A check as the tests model it: a plain function producing one result.
type Check = fn() -> CheckResult;

fn always_healthy() -> CheckResult {
    CheckResult::healthy()
}

fn cache_timeout() -> CheckResult {
    CheckResult::unhealthy(String::from("timeout"))
}

fn undecided() -> CheckResult {
    CheckResult::unknown(String::from("no signal"))
}

/// Invoke every registered check in registry order and hand the results to
/// the library, as the surrounding runtime does.
fn run_readiness(routes: &HealthRoutes<Check>) -> (HealthResponse, u16) {
    let mut results = Vec::new();
    for entry in routes.checks.iter() {
        results.push((entry.1)());
    }
    routes.readiness_response(results)
}

fn find<'a>(response: &'a HealthResponse, name: &str) -> &'a CheckResult {
    &response
        .checks
        .iter()
        .find(|entry| entry.0 == name)
        .expect("no check recorded under that name")
        .1
}

#[test]
fn healthy_constructor() {
    let r = CheckResult::healthy();
    assert_eq!(r.status, CheckStatus::Healthy);
    assert_eq!(r.message, None);
    assert_eq!(r.duration_ms, None);
}

#[test]
fn healthy_with_message_constructor() {
    let r = CheckResult::healthy_with_message(String::from("HTTP 200 OK"));
    assert_eq!(r.status, CheckStatus::Healthy);
    assert_eq!(r.message, Some(String::from("HTTP 200 OK")));
    assert_eq!(r.duration_ms, None);
}

#[test]
fn unhealthy_constructor() {
    let r = CheckResult::unhealthy(String::from("connection refused"));
    assert_eq!(r.status, CheckStatus::Unhealthy);
    assert_eq!(r.message, Some(String::from("connection refused")));
    assert_eq!(r.duration_ms, None);
}

#[test]
fn unknown_constructor() {
    let r = CheckResult::unknown(String::from("not probed"));
    assert_eq!(r.status, CheckStatus::Unknown);
    assert_eq!(r.message, Some(String::from("not probed")));
    assert_eq!(r.duration_ms, None);
}

#[test]
fn with_duration_sets_only_duration() {
    let r = CheckResult::healthy().with_duration(42);
    assert_eq!(r.status, CheckStatus::Healthy);
    assert_eq!(r.message, None);
    assert_eq!(r.duration_ms, Some(42));
}

#[test]
fn builder_records_identity() {
    let routes: HealthRoutes<Check> =
        HealthCheckBuilder::new(String::from("orders"), String::from("2.3.0")).build();
    assert_eq!(routes.service_name, String::from("orders"));
    assert_eq!(routes.version, Some(String::from("2.3.0")));
    assert_eq!(routes.check_count(), 0);
}

#[test]
fn builder_without_version() {
    let routes: HealthRoutes<Check> =
        HealthCheckBuilder::without_version(String::from("orders")).build();
    assert_eq!(routes.version, None);
}

#[test]
fn readiness_of_empty_registry_is_healthy() {
    let routes: HealthRoutes<Check> =
        HealthCheckBuilder::without_version(String::from("svc")).build();
    let (response, code) = run_readiness(&routes);
    assert_eq!(response.status, CheckStatus::Healthy);
    assert_eq!(code, 200);
    assert_eq!(response.checks.len(), 0);
}

#[test]
fn readiness_all_healthy_is_healthy() {
    let routes = HealthCheckBuilder::without_version(String::from("svc"))
        .add_check(String::from("database"), always_healthy as Check)
        .add_check(String::from("cache"), always_healthy as Check)
        .build();
    let (response, code) = run_readiness(&routes);
    assert_eq!(response.status, CheckStatus::Healthy);
    assert_eq!(code, 200);
    assert_eq!(response.checks.len(), 2);
    assert!(response.is_healthy());
}

#[test]
fn readiness_one_unhealthy_flips_aggregate() {
    let routes = HealthCheckBuilder::without_version(String::from("svc"))
        .add_check(String::from("database"), always_healthy as Check)
        .add_check(String::from("cache"), cache_timeout as Check)
        .add_check(String::from("remote"), always_healthy as Check)
        .build();
    let (response, code) = run_readiness(&routes);
    assert_eq!(response.status, CheckStatus::Unhealthy);
    assert_eq!(code, 503);
    assert!(!response.is_healthy());
}

#[test]
fn readiness_example_database_and_cache() {
    let routes = HealthCheckBuilder::without_version(String::from("svc"))
        .add_check(String::from("database"), always_healthy as Check)
        .add_check(String::from("cache"), cache_timeout as Check)
        .build();
    let (response, code) = run_readiness(&routes);
    assert_eq!(response.status, CheckStatus::Unhealthy);
    assert_eq!(code, 503);
    assert_eq!(find(&response, "database").status, CheckStatus::Healthy);
    assert_eq!(find(&response, "cache").status, CheckStatus::Unhealthy);
    assert_eq!(find(&response, "cache").message, Some(String::from("timeout")));
}

#[test]
fn unknown_result_does_not_flip_aggregate() {
    let routes = HealthCheckBuilder::without_version(String::from("svc"))
        .add_check(String::from("flaky"), undecided as Check)
        .build();
    let (response, code) = run_readiness(&routes);
    assert_eq!(response.status, CheckStatus::Healthy);
    assert_eq!(code, 200);
    assert_eq!(find(&response, "flaky").status, CheckStatus::Unknown);
}

#[test]
fn liveness_never_consults_checks() {
    let routes = HealthCheckBuilder::without_version(String::from("svc"))
        .add_check(String::from("database"), cache_timeout as Check)
        .add_check(String::from("cache"), cache_timeout as Check)
        .build();
    let (response, code) = routes.liveness_response();
    assert_eq!(response.status, CheckStatus::Healthy);
    assert_eq!(code, 200);
    assert_eq!(response.checks.len(), 0);
}

#[test]
fn liveness_example_orders_service() {
    let routes: HealthRoutes<Check> =
        HealthCheckBuilder::new(String::from("orders"), String::from("2.3.0")).build();
    let (response, code) = routes.liveness_response();
    assert_eq!(code, 200);
    assert_eq!(response.status, CheckStatus::Healthy);
    assert_eq!(response.service, String::from("orders"));
    assert_eq!(response.version, Some(String::from("2.3.0")));
    assert_eq!(response.checks.len(), 0);
    assert!(!response.timestamp.is_empty());
}

#[test]
fn readding_a_name_replaces_the_prior_check() {
    let routes = HealthCheckBuilder::without_version(String::from("svc"))
        .add_check(String::from("database"), cache_timeout as Check)
        .add_check(String::from("database"), always_healthy as Check)
        .build();
    assert_eq!(routes.check_count(), 1);
    let (response, code) = run_readiness(&routes);
    assert_eq!(response.status, CheckStatus::Healthy);
    assert_eq!(code, 200);
    assert_eq!(response.checks.len(), 1);
    assert_eq!(find(&response, "database").status, CheckStatus::Healthy);
}

#[test]
fn one_entry_per_distinct_registered_name() {
    let routes = HealthCheckBuilder::without_version(String::from("svc"))
        .add_check(String::from("a"), always_healthy as Check)
        .add_check(String::from("b"), always_healthy as Check)
        .add_check(String::from("c"), always_healthy as Check)
        .add_check(String::from("b"), cache_timeout as Check)
        .build();
    assert_eq!(routes.check_count(), 3);
    let (response, _code) = run_readiness(&routes);
    assert_eq!(response.checks.len(), 3);
}

#[test]
fn response_add_check_is_monotone() {
    let response = HealthResponse::new(String::from("svc"))
        .add_check(String::from("bad"), CheckResult::unhealthy(String::from("down")))
        .add_check(String::from("good"), CheckResult::healthy());
    assert_eq!(response.status, CheckStatus::Unhealthy);
    assert!(!response.is_healthy());
}

#[test]
fn response_with_version_keeps_fields() {
    let response = HealthResponse::new(String::from("svc"))
        .with_version(String::from("1.0.0"));
    assert_eq!(response.service, String::from("svc"));
    assert_eq!(response.version, Some(String::from("1.0.0")));
    assert_eq!(response.status, CheckStatus::Healthy);
}

//! Service health probes: a liveness endpoint that always reports alive, and
//! a readiness endpoint that aggregates the outcomes of a set of named
//! dependency checks into one overall verdict and transport status code.
//!
//! The library owns the data model and the aggregation rules: check results,
//! the builder that accumulates named checks, the immutable registry
//! snapshot, and the construction of liveness and readiness responses. The
//! surrounding runtime owns the transport: it invokes each registered check,
//! hands the results back, and serves the finished response over HTTP.

pub mod builder;
pub mod checks;
pub mod laws;
pub mod registry;
pub mod response;
pub mod routes;

pub use builder::HealthCheckBuilder;
pub use checks::{cache_verdict, database_verdict, endpoint_verdict, CacheFailure};
pub use response::{CheckResult, CheckStatus, HealthResponse};
pub use routes::HealthRoutes;

//! Check results and health responses.
//!
//! A `CheckResult` is the immutable outcome of one invocation of a health
//! check. A `HealthResponse` is built per request: the liveness endpoint
//! leaves its check mapping empty, the readiness endpoint records one result
//! per registered check and aggregates them into one overall verdict. Any
//! `Unhealthy` result forces the aggregate to `Unhealthy`; otherwise it stays
//! `Healthy` (an `Unknown` result is recorded but does not flip the
//! aggregate).

use vstd::prelude::*;

use crate::registry::{distinct_keys, has_key, upsert};

verus! {

/// Health verdict of one check, or the aggregate verdict of a response.
#[derive(Clone, Copy, Debug, PartialEq, Eq, Structural)]
pub enum CheckStatus {
    /// The check passed.
    Healthy,
    /// The check failed.
    Unhealthy,
    /// The check could not decide.
    Unknown,
}

/// Outcome of one invocation of a health check.
#[derive(Clone, Debug)]
pub struct CheckResult {
    /// Verdict of this check.
    pub status: CheckStatus,
    /// Optional diagnostic message.
    pub message: Option<String>,
    /// Measured duration of the check in milliseconds, when taken.
    pub duration_ms: Option<u64>,
}

impl CheckResult {
    /// A passing result with no message.
    pub fn healthy() -> (r: Self)
        ensures
            r.status == CheckStatus::Healthy,
            r.message is None,
            r.duration_ms is None,
    {
        CheckResult { status: CheckStatus::Healthy, message: None, duration_ms: None }
    }

    /// A passing result carrying a message.
    pub fn healthy_with_message(message: String) -> (r: Self)
        ensures
            r.status == CheckStatus::Healthy,
            r.message == Some(message),
            r.duration_ms is None,
    {
        CheckResult { status: CheckStatus::Healthy, message: Some(message), duration_ms: None }
    }

    /// A failing result carrying a diagnostic message.
    pub fn unhealthy(message: String) -> (r: Self)
        ensures
            r.status == CheckStatus::Unhealthy,
            r.message == Some(message),
            r.duration_ms is None,
    {
        CheckResult { status: CheckStatus::Unhealthy, message: Some(message), duration_ms: None }
    }

    /// An undecided result carrying a message.
    pub fn unknown(message: String) -> (r: Self)
        ensures
            r.status == CheckStatus::Unknown,
            r.message == Some(message),
            r.duration_ms is None,
    {
        CheckResult { status: CheckStatus::Unknown, message: Some(message), duration_ms: None }
    }

    /// The same result with its measured duration set.
    pub fn with_duration(self, duration_ms: u64) -> (r: Self)
        ensures
            r.status == self.status,
            r.message == self.message,
            r.duration_ms == Some(duration_ms),
    {
        CheckResult { duration_ms: Some(duration_ms), ..self }
    }
}

/// Some recorded check reports `Unhealthy`.
pub open spec fn has_unhealthy(checks: Seq<(String, CheckResult)>) -> bool {
    exists|i: int| 0 <= i < checks.len() && checks[i].1.status == CheckStatus::Unhealthy
}

/// The aggregate verdict over a sequence of results: `Unhealthy` as soon as
/// one result is `Unhealthy`, else `Healthy`.
pub open spec fn aggregate_status(results: Seq<CheckResult>) -> CheckStatus {
    if exists|i: int| 0 <= i < results.len() && results[i].status == CheckStatus::Unhealthy {
        CheckStatus::Unhealthy
    } else {
        CheckStatus::Healthy
    }
}

/// The HTTP code that reports a verdict to the prober: 200 when the verdict
/// is `Healthy`, 503 otherwise.
pub open spec fn transport_code(status: CheckStatus) -> u16 {
    if status == CheckStatus::Healthy {
        200
    } else {
        503
    }
}

/// One response of the liveness or readiness endpoint.
pub struct HealthResponse {
    /// Aggregate verdict over the recorded checks.
    pub status: CheckStatus,
    /// Name of the service answering.
    pub service: String,
    /// Results recorded so far, one entry per check name.
    pub checks: Vec<(String, CheckResult)>,
    /// Capture time of the response, as RFC 3339 text.
    pub timestamp: String,
    /// Version of the service answering, when configured.
    pub version: Option<String>,
}

/// Relies on chrono's `Utc::now` for the current instant, rendered with
/// `DateTime::to_rfc3339`. The result depends on the clock, so nothing is
/// promised of it.
#[verifier::external_body]
fn now_rfc3339() -> String {
    chrono::Utc::now().to_rfc3339()
}

impl HealthResponse {
    /// The recorded checks form a mapping: no name occurs twice.
    pub open spec fn wf(self) -> bool {
        distinct_keys(self.checks@)
    }

    /// The aggregate invariant: the verdict is `Unhealthy` exactly when some
    /// recorded check is `Unhealthy`, and `Healthy` otherwise.
    pub open spec fn status_consistent(self) -> bool {
        self.status == if has_unhealthy(self.checks@) {
            CheckStatus::Unhealthy
        } else {
            CheckStatus::Healthy
        }
    }

    /// A fresh response for `service`: verdict `Healthy`, no checks recorded,
    /// no version, capture time taken now.
    pub fn new(service: String) -> (r: Self)
        ensures
            r.status == CheckStatus::Healthy,
            r.service == service,
            r.checks@.len() == 0,
            r.version is None,
            r.wf(),
            r.status_consistent(),
    {
        HealthResponse {
            status: CheckStatus::Healthy,
            service,
            checks: Vec::new(),
            timestamp: now_rfc3339(),
            version: None,
        }
    }

    /// The same response with the service version set.
    pub fn with_version(self, version: String) -> (r: Self)
        ensures
            r.status == self.status,
            r.service == self.service,
            r.checks == self.checks,
            r.timestamp == self.timestamp,
            r.version == Some(version),
    {
        HealthResponse { version: Some(version), ..self }
    }

    /// Record `result` under `name` and fold it into the aggregate: a
    /// failing result makes the aggregate `Unhealthy`, and no later passing
    /// result can undo that within the same response. A result already
    /// recorded under `name` is replaced (last write wins).
    pub fn add_check(self, name: String, result: CheckResult) -> (r: Self)
        requires
            self.wf(),
        ensures
            r.service == self.service,
            r.timestamp == self.timestamp,
            r.version == self.version,
            r.checks@ == upsert(self.checks@, name, result),
            r.status == if result.status == CheckStatus::Unhealthy {
                CheckStatus::Unhealthy
            } else {
                self.status
            },
            r.wf(),
            self.status_consistent() && !has_key(self.checks@, name@)
                ==> r.status_consistent(),
    {
        let status = if matches!(result.status, CheckStatus::Unhealthy) {
            CheckStatus::Unhealthy
        } else {
            self.status
        };
        let mut checks = self.checks;
        crate::registry::upsert_entry(&mut checks, name, result);
        let r = HealthResponse {
            status,
            service: self.service,
            checks,
            timestamp: self.timestamp,
            version: self.version,
        };
        proof {
            if self.status_consistent() && !has_key(self.checks@, name@) {
                assert(r.checks@ == self.checks@.push((name, result)));
                if result.status == CheckStatus::Unhealthy {
                    assert(r.checks@[self.checks@.len() as int].1.status
                        == CheckStatus::Unhealthy);
                    assert(has_unhealthy(r.checks@));
                } else {
                    if has_unhealthy(r.checks@) {
                        let i = choose|i: int|
                            0 <= i < r.checks@.len()
                                && r.checks@[i].1.status == CheckStatus::Unhealthy;
                        assert(i < self.checks@.len());
                        assert(self.checks@[i].1.status == CheckStatus::Unhealthy);
                        assert(has_unhealthy(self.checks@));
                    }
                    if has_unhealthy(self.checks@) {
                        let i = choose|i: int|
                            0 <= i < self.checks@.len()
                                && self.checks@[i].1.status == CheckStatus::Unhealthy;
                        assert(r.checks@[i].1.status == CheckStatus::Unhealthy);
                        assert(has_unhealthy(r.checks@));
                    }
                }
            }
        }
        r
    }

    /// Whether the aggregate verdict is `Healthy`.
    pub fn is_healthy(&self) -> (r: bool)
        ensures
            r == (self.status == CheckStatus::Healthy),
    {
        matches!(self.status, CheckStatus::Healthy)
    }
}

} // verus!

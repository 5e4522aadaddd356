//! The immutable registry snapshot and the two endpoint computations.
//!
//! `HealthRoutes` is the snapshot a builder yields: service identity plus the
//! named checks, never mutated afterwards. `liveness_response` answers
//! without consulting any check. `readiness_response` takes the results the
//! surrounding runtime obtained by invoking every registered check, records
//! them name by name, and aggregates them into one verdict and transport
//! status code. The runtime performs the invocations (they are asynchronous
//! I/O); the library fixes what the response must look like for whatever
//! results come back.

use vstd::prelude::*;

use crate::registry::{distinct_keys, has_key};
use crate::response::{
    aggregate_status, has_unhealthy, transport_code, CheckResult, CheckStatus, HealthResponse,
};

verus! {

/// Immutable snapshot of a service's identity and named checks, shared
/// read-only across concurrent requests.
pub struct HealthRoutes<C> {
    /// Name of the service whose health is exposed.
    pub service_name: String,
    /// Version of the service, when one is configured.
    pub version: Option<String>,
    /// The registered checks, one entry per name.
    pub checks: Vec<(String, C)>,
}

impl<C> HealthRoutes<C> {
    /// The registered checks form a mapping: no name occurs twice.
    pub open spec fn wf(self) -> bool {
        distinct_keys(self.checks@)
    }

    /// Number of registered checks.
    pub fn check_count(&self) -> (n: usize)
        ensures
            n == self.checks@.len(),
    {
        self.checks.len()
    }

    /// The liveness answer: `Healthy` with code 200 for every registry, with
    /// no look at its checks — it reports only that the process answers.
    pub fn liveness_response(&self) -> (r: (HealthResponse, u16))
        ensures
            r.0.status == CheckStatus::Healthy,
            r.0.checks@.len() == 0,
            r.0.service == self.service_name,
            r.0.version == self.version,
            r.0.wf(),
            r.0.status_consistent(),
            r.1 == 200,
    {
        let response = self.base_response();
        (response, 200)
    }

    /// The readiness verdict over the results of every registered check, one
    /// result per entry of the registry, in registry order. The response
    /// records each result under its check's name; its aggregate verdict is
    /// `Unhealthy` exactly when some result is `Unhealthy`, else `Healthy`;
    /// the transport code is 200 for `Healthy` and 503 otherwise.
    pub fn readiness_response(&self, results: Vec<CheckResult>) -> (r: (HealthResponse, u16))
        requires
            self.wf(),
            results@.len() == self.checks@.len(),
        ensures
            r.0.service == self.service_name,
            r.0.version == self.version,
            r.0.wf(),
            r.0.checks@.len() == self.checks@.len(),
            forall|i: int| 0 <= i < self.checks@.len() ==> {
                &&& (#[trigger] r.0.checks@[i]).0@ == self.checks@[i].0@
                &&& r.0.checks@[i].1 == results@[i]
            },
            r.0.status == aggregate_status(results@),
            r.0.status_consistent(),
            r.1 == transport_code(r.0.status),
            (r.1 == 200 <==> aggregate_status(results@) == CheckStatus::Healthy),
            (r.1 == 503 <==> aggregate_status(results@) == CheckStatus::Unhealthy),
    {
        let ghost results0 = results@;
        let mut remaining = results;
        let mut response = self.base_response();
        let n = self.checks.len();
        let mut i: usize = 0;
        while i < n
            invariant
                self.wf(),
                n == self.checks@.len(),
                results0.len() == n,
                i <= n,
                remaining@ == results0.skip(i as int),
                response.service == self.service_name,
                response.version == self.version,
                response.wf(),
                response.status_consistent(),
                response.checks@.len() == i,
                forall|j: int| 0 <= j < i ==> {
                    &&& (#[trigger] response.checks@[j]).0@ == self.checks@[j].0@
                    &&& response.checks@[j].1 == results0[j]
                },
            decreases n - i,
        {
            let name = self.checks[i].0.clone();
            let result = remaining.remove(0);
            proof {
                assert(result == results0[i as int]);
                assert(remaining@ =~= results0.skip(i as int + 1));
                assert(!has_key(response.checks@, name@)) by {
                    assert forall|j: int|
                        0 <= j < response.checks@.len()
                        implies (#[trigger] response.checks@[j]).0@ != name@ by {
                        assert(response.checks@[j].0@ == self.checks@[j].0@);
                        assert(self.checks@[j].0@ != self.checks@[i as int].0@);
                    }
                }
            }
            response = response.add_check(name, result);
            i += 1;
        }
        proof {
            assert(response.status == aggregate_status(results0)) by {
                if exists|j: int|
                    0 <= j < results0.len()
                        && results0[j].status == CheckStatus::Unhealthy {
                    let j = choose|j: int|
                        0 <= j < results0.len()
                            && results0[j].status == CheckStatus::Unhealthy;
                    assert(response.checks@[j].1.status == CheckStatus::Unhealthy);
                    assert(has_unhealthy(response.checks@));
                } else if has_unhealthy(response.checks@) {
                    let j = choose|j: int|
                        0 <= j < response.checks@.len()
                            && response.checks@[j].1.status == CheckStatus::Unhealthy;
                    assert(results0[j].status == CheckStatus::Unhealthy);
                }
            }
        }
        let code: u16 = if response.is_healthy() {
            200
        } else {
            503
        };
        (response, code)
    }

    /// A response carrying this snapshot's identity, verdict `Healthy`, and
    /// no checks recorded yet.
    fn base_response(&self) -> (r: HealthResponse)
        ensures
            r.status == CheckStatus::Healthy,
            r.checks@.len() == 0,
            r.service == self.service_name,
            r.version == self.version,
            r.wf(),
            r.status_consistent(),
    {
        let response = HealthResponse::new(self.service_name.clone());
        match &self.version {
            Some(v) => response.with_version(v.clone()),
            None => response,
        }
    }
}

} // verus!

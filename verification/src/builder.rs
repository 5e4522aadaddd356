//! Builder for a health check registry.
//!
//! The builder accumulates a service identity and a set of named checks and
//! is consumed by `build`, which yields the immutable `HealthRoutes`
//! snapshot. The check payload `C` is whatever the surrounding runtime later
//! invokes to produce a `CheckResult`; the library itself never invokes it.

use vstd::prelude::*;

use crate::registry::{distinct_keys, has_key, upsert};
use crate::routes::HealthRoutes;

verus! {

/// Accumulates a service name, an optional version, and named checks.
pub struct HealthCheckBuilder<C> {
    /// Name of the service whose health is exposed.
    pub service_name: String,
    /// Version of the service, when one is configured.
    pub version: Option<String>,
    /// Accumulated checks, one entry per name.
    pub checks: Vec<(String, C)>,
}

impl<C> HealthCheckBuilder<C> {
    /// The accumulated checks form a mapping: no name occurs twice.
    pub open spec fn wf(self) -> bool {
        distinct_keys(self.checks@)
    }

    /// A builder for `service_name` carrying a version and no checks yet.
    pub fn new(service_name: String, version: String) -> (r: Self)
        ensures
            r.service_name == service_name,
            r.version == Some(version),
            r.checks@.len() == 0,
            r.wf(),
    {
        HealthCheckBuilder { service_name, version: Some(version), checks: Vec::new() }
    }

    /// A builder for `service_name` carrying no version and no checks yet.
    pub fn without_version(service_name: String) -> (r: Self)
        ensures
            r.service_name == service_name,
            r.version is None,
            r.checks@.len() == 0,
            r.wf(),
    {
        HealthCheckBuilder { service_name, version: None, checks: Vec::new() }
    }

    /// Add `check` under `name`. A check already registered under `name` is
    /// replaced (last write wins — map semantics, not an error).
    pub fn add_check(self, name: String, check: C) -> (r: Self)
        requires
            self.wf(),
        ensures
            r.service_name == self.service_name,
            r.version == self.version,
            r.checks@ == upsert(self.checks@, name, check),
            r.checks@.len() == if has_key(self.checks@, name@) {
                self.checks@.len()
            } else {
                self.checks@.len() + 1
            },
            forall|n: Seq<char>| #[trigger] has_key(r.checks@, n)
                <==> (has_key(self.checks@, n) || n == name@),
            r.wf(),
    {
        proof {
            crate::registry::lemma_upsert_facts(self.checks@, name, check);
        }
        let mut checks = self.checks;
        crate::registry::upsert_entry(&mut checks, name, check);
        HealthCheckBuilder { service_name: self.service_name, version: self.version, checks }
    }

    /// Consume the builder and yield the immutable registry snapshot.
    pub fn build(self) -> (r: HealthRoutes<C>)
        requires
            self.wf(),
        ensures
            r.service_name == self.service_name,
            r.version == self.version,
            r.checks == self.checks,
            r.wf(),
    {
        HealthRoutes {
            service_name: self.service_name,
            version: self.version,
            checks: self.checks,
        }
    }
}

} // verus!

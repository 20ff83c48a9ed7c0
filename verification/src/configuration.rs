//! Settings of a policy service, fixed once the configuration is loaded.

use std::time::Duration;
use vstd::prelude::*;

verus! {

/// What happens to a request when the call to a policy service fails.
#[derive(Clone, Copy, Debug, PartialEq, Eq, Structural)]
pub enum FailureMode {
    /// The request is terminated.
    Deny,
    /// The request goes on as if the service had not been asked.
    Allow,
}

/// The protocol a policy service speaks.
#[derive(Clone, Copy, Debug, PartialEq, Eq, Structural)]
pub enum ServiceType {
    Auth,
    RateLimit,
}

/// A policy service as configured.
#[derive(Debug)]
pub struct Service {
    pub service_type: ServiceType,
    pub endpoint: String,
    pub failure_mode: FailureMode,
    pub timeout: Duration,
}

impl Service {
    /// A service of the given kind behind the upstream `endpoint`.
    pub fn new(
        service_type: ServiceType,
        endpoint: String,
        failure_mode: FailureMode,
        timeout: Duration,
    ) -> (service: Self)
        ensures
            service.service_type == service_type,
            service.endpoint == endpoint,
            service.failure_mode == failure_mode,
            service.timeout == timeout,
    {
        Service { service_type, endpoint, failure_mode, timeout }
    }
}

} // verus!

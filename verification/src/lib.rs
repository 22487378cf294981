use vstd::prelude::*;

pub mod ascii;
pub mod names;
pub mod headers;
pub mod token;
pub mod errors;
pub mod target;
pub mod relay;
pub mod forward;
pub mod health;
pub mod wskey;

verus! {

/// Port the gateway listens on when none is configured.
pub const DEFAULT_PORT: u16 = 7860;

/// Deadline, in seconds, for one backend call on the HTTP path.
pub const REQUEST_TIMEOUT_SECS: u64 = 30;

/// How long, in seconds, an idle pooled backend connection is kept.
pub const POOL_IDLE_TIMEOUT_SECS: u64 = 60;

/// Upper bound on idle pooled connections per backend host.
pub const POOL_MAX_IDLE_PER_HOST: usize = 100;

/// Immutable per-process gateway settings, shared read-only by every
/// request-handling task.
pub struct GatewayConfig {
    /// Backend base address: scheme and host, with an optional port.
    pub backend_base: Vec<u8>,
    /// Service-level credential; empty disables credential injection.
    pub service_credential: Vec<u8>,
}

impl GatewayConfig {
    /// Builds the configuration from the backend base address and the
    /// service credential.
    pub fn new(backend_base: Vec<u8>, service_credential: Vec<u8>) -> (r: GatewayConfig)
        ensures
            r.backend_base@ == backend_base@,
            r.service_credential@ == service_credential@,
    {
        GatewayConfig { backend_base, service_credential }
    }
}

} // verus!

//! Process-wide configuration, created once at startup and read-only
//! thereafter: the fixed upstream origin, the per-call deadline, the body
//! size ceiling, the connection-pool settings, and the header policy.

use vstd::prelude::*;
use crate::policy::HeaderPolicy;

verus! {

/// Default body size ceiling: 5 MiB.
pub const DEFAULT_BODY_LIMIT: usize = 5 * 1024 * 1024;

/// Default per-call deadline, in milliseconds: 30 s.
pub const DEFAULT_TIMEOUT_MS: u64 = 30 * 1000;

/// Default cap on idle pooled connections per host.
pub const DEFAULT_POOL_MAX_IDLE: usize = 10;

/// Default idle-connection expiry, in milliseconds: 15 s.
pub const DEFAULT_POOL_IDLE_TIMEOUT_MS: u64 = 15 * 1000;

/// Configuration shared read-only by all concurrent calls.
#[derive(Debug)]
pub struct ProxyConfig {
    /// The one fixed upstream origin, e.g. `https://upstream.example`.
    pub base_url: Vec<u8>,
    /// Ceiling on the inbound body, in bytes.
    pub body_limit: usize,
    /// Per-call deadline covering the whole dispatch, in milliseconds.
    pub timeout_ms: u64,
    /// Cap on idle pooled connections per host.
    pub pool_max_idle: usize,
    /// Idle-connection expiry, in milliseconds.
    pub pool_idle_timeout_ms: u64,
    /// Which headers cross each direction of the boundary.
    pub policy: HeaderPolicy,
}

impl ProxyConfig {
    pub open spec fn wf(&self) -> bool {
        self.policy.wf()
    }

    /// Configuration with the given origin and every default: 5 MiB body
    /// ceiling, 30 s deadline, 10 idle connections expiring after 15 s,
    /// and the baseline header policy.
    pub fn new(base_url: Vec<u8>) -> (c: ProxyConfig)
        ensures
            c.wf(),
            c.base_url == base_url,
            c.body_limit == DEFAULT_BODY_LIMIT,
            c.timeout_ms == DEFAULT_TIMEOUT_MS,
            c.pool_max_idle == DEFAULT_POOL_MAX_IDLE,
            c.pool_idle_timeout_ms == DEFAULT_POOL_IDLE_TIMEOUT_MS,
            forall|dir: crate::policy::Direction, n: Seq<u8>|
                #[trigger] c.policy.denies(dir, n) <==> crate::policy::is_framing_name(
                    crate::bytes::lower_seq(n),
                ),
    {
        ProxyConfig {
            base_url,
            body_limit: DEFAULT_BODY_LIMIT,
            timeout_ms: DEFAULT_TIMEOUT_MS,
            pool_max_idle: DEFAULT_POOL_MAX_IDLE,
            pool_idle_timeout_ms: DEFAULT_POOL_IDLE_TIMEOUT_MS,
            policy: HeaderPolicy::baseline(),
        }
    }
}

} // verus!

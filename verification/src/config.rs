//! The configuration: loaded once before anything else, immutable thereafter,
//! owned by the lifecycle. Reading the file or the environment is the
//! caller's I/O; whether the result is acceptable, and what each knob means
//! for the pipeline, is decided here.

use vstd::prelude::*;

use crate::cors::CorsConfig;
use crate::http::Response;
use crate::pipeline::PipelineConfig;

verus! {

/// The recognized options, each mapped to one effect: where to listen, the
/// pool bound and its acquire timeout, the per-request deadline, the shutdown
/// grace period, the compression threshold, the trace capture bound, and the
/// CORS allow-list.
pub struct Config {
    pub listen_addr: String,
    pub pool_size: usize,
    pub acquire_timeout_ms: u64,
    pub request_deadline_ms: u64,
    pub grace_period_ms: u64,
    pub compression_threshold: usize,
    pub capture_limit: usize,
    pub allowed_origins: Vec<String>,
}

/// A configuration is well formed when the listen address is not empty, the
/// pool holds at least one handle, and the per-request deadline is positive.
pub open spec fn config_wf(c: Config) -> bool {
    &&& c.listen_addr@.len() > 0
    &&& c.pool_size >= 1
    &&& c.request_deadline_ms >= 1
}

impl Config {
    /// Accept exactly the well-formed configurations; on a malformed one the
    /// process fails fatally before serving.
    pub fn validate(&self) -> (r: bool)
        ensures
            r == config_wf(*self),
    {
        !self.listen_addr.as_str().is_empty() && self.pool_size >= 1
            && self.request_deadline_ms >= 1
    }

    /// The pipeline's knobs, as the configuration sets them.
    pub fn pipeline(&self) -> (p: PipelineConfig)
        ensures
            p.compression_threshold == self.compression_threshold,
            p.capture_limit == self.capture_limit,
            p.cors.allowed_origins@ == self.allowed_origins@,
    {
        let mut origins: Vec<String> = Vec::new();
        let mut i: usize = 0;
        while i < self.allowed_origins.len()
            invariant
                0 <= i <= self.allowed_origins@.len(),
                origins@ == self.allowed_origins@.take(i as int),
            decreases self.allowed_origins@.len() - i,
        {
            origins.push(self.allowed_origins[i].clone());
            proof {
                assert(origins@ =~= self.allowed_origins@.take(i + 1 as int));
            }
            i = i + 1;
        }
        proof {
            assert(self.allowed_origins@.take(self.allowed_origins@.len() as int)
                =~= self.allowed_origins@);
        }
        PipelineConfig {
            compression_threshold: self.compression_threshold,
            capture_limit: self.capture_limit,
            cors: CorsConfig { allowed_origins: origins },
        }
    }
}

/// Has the per-request deadline passed at instant `now`? Exceeding it cancels
/// the handler task and the client gets a timeout response instead.
pub fn deadline_exceeded(start_ms: u64, deadline_ms: u64, now_ms: u64) -> (r: bool)
    ensures
        r == (now_ms as int >= start_ms as int + deadline_ms as int),
{
    if now_ms < start_ms {
        false
    } else {
        now_ms - start_ms >= deadline_ms
    }
}

/// The response synthesized when the deadline passes: the request fails, the
/// worker does not.
pub fn timeout_response() -> (r: Response)
    ensures
        r.status == 504,
        r.headers@.len() == 0,
        r.body@.len() == 0,
{
    Response { status: 504, headers: Vec::new(), body: Vec::new() }
}

} // verus!

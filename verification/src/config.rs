//! Gateway configuration and the constant table of model disk sizes used
//! by the model listing. Reading the process environment happens outside
//! the library; the library receives a fully built `Config`.

use vstd::prelude::*;

verus! {

/// Estimated on-disk bytes of a 7-billion-parameter model.
pub const MODEL_7B_SIZE: i64 = 4_100_000_000;

/// Estimated on-disk bytes of an 8x7-billion-parameter mixture model.
pub const MODEL_8X7B_SIZE: i64 = 47_000_000_000;

/// Estimated on-disk bytes of a 70-billion-parameter model.
pub const MODEL_70B_SIZE: i64 = 40_000_000_000;

/// Size reported when no pattern matches a model identifier.
pub const DEFAULT_MODEL_SIZE: i64 = MODEL_7B_SIZE;

pub struct Config {
    pub mistral_url: String,
    pub bind_address: String,
    pub request_timeout_secs: u64,
    pub channel_buffer_size: usize,
    pub max_line_length: usize,
    pub cors_allowed_origins: Vec<String>,
}

/// The whole seconds a `Duration` holds, as `Duration::as_secs` reports
/// them.
pub uninterp spec fn duration_secs(d: core::time::Duration) -> u64;

/// Relies on core::time::Duration::from_secs: the resulting duration holds
/// exactly `secs` whole seconds.
#[verifier::external_body]
fn duration_from_secs(secs: u64) -> (d: core::time::Duration)
    ensures
        duration_secs(d) == secs,
{
    core::time::Duration::from_secs(secs)
}

impl Config {
    /// The whole-request timeout enforced by the transport layer.
    pub fn request_timeout(&self) -> (d: core::time::Duration)
        ensures
            duration_secs(d) == self.request_timeout_secs,
    {
        duration_from_secs(self.request_timeout_secs)
    }
}

} // verus!

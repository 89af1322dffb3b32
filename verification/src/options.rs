use vstd::prelude::*;

verus! {

/// The timeout applied when the caller supplies none, in milliseconds.
pub const DEFAULT_TIMEOUT_MS: u64 = 5000;

/// Caller-supplied configuration for one render request. Every field is
/// independently optional; an absent `wait_for`, `selector` or `script` is
/// handed to the page-side readiness script as "no constraint".
pub struct RenderOptions {
    /// Maximum time to wait for rendering, in milliseconds.
    pub timeout: Option<i64>,
    /// CSS selector that must match before the page counts as ready.
    pub wait_for: Option<String>,
    /// CSS selector restricting the extracted fragment; absent means the
    /// whole document element.
    pub selector: Option<String>,
    /// Script text executed immediately before extraction.
    pub script: Option<String>,
}

impl RenderOptions {
    /// The timeout in force for a session built from these options: the
    /// caller's value reduced modulo 2^64 (a negative value wraps, as a
    /// two's-complement reinterpretation does), or the default when absent.
    pub open spec fn timeout_ms_spec(&self) -> u64 {
        match self.timeout {
            Option::None => DEFAULT_TIMEOUT_MS,
            Option::Some(t) => if t >= 0 {
                t as u64
            } else {
                (t + 0x1_0000_0000_0000_0000) as u64
            },
        }
    }

    /// Computes the timeout in force, in milliseconds.
    pub fn effective_timeout_ms(&self) -> (r: u64)
        ensures
            r == self.timeout_ms_spec(),
    {
        match self.timeout {
            Option::None => DEFAULT_TIMEOUT_MS,
            Option::Some(t) => {
                if t >= 0 {
                    t as u64
                } else {
                    let neg: i64 = -(t + 1);
                    u64::MAX - (neg as u64)
                }
            },
        }
    }
}

impl Default for RenderOptions {
    /// Options with every field absent.
    fn default() -> (r: Self)
        ensures
            r.timeout is None,
            r.wait_for is None,
            r.selector is None,
            r.script is None,
    {
        RenderOptions { timeout: None, wait_for: None, selector: None, script: None }
    }
}

} // verus!

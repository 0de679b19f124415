//! Settings read at startup.

use vstd::prelude::*;

verus! {

/// The idle timeout, in milliseconds, used when none is configured.
pub const DEFAULT_TIMEOUT_MS: u64 = 100;

/// User settings.
#[derive(Debug, Clone, Copy, PartialEq, Eq, Structural)]
pub struct Config {
    /// Milliseconds without a moving event after which the menu closes.
    pub timeout: u64,
}

impl Default for Config {
    fn default() -> (r: Self)
        ensures
            r.timeout == DEFAULT_TIMEOUT_MS,
    {
        Config { timeout: DEFAULT_TIMEOUT_MS }
    }
}

} // verus!

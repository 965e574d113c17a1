use vstd::prelude::*;
use crate::span::{Span, NANOS_PER_SEC};

verus! {

/// Configuration for a periodic health check
///
/// Defaults:
///
/// * Checks every 5 seconds
/// * Becomes unhealthy after 3 consecutive failures
/// * Becomes healthy on first success
/// * Becomes unreliable if no completed checks in 15 seconds
#[derive(Clone, Copy, Debug, PartialEq, Eq, Structural)]
pub struct Config {
    /// Interval over which to periodically run the health check
    pub check_interval: Span,
    /// Minimum number of consecutive failures to flip an healthy
    /// health check to unhealthy
    pub min_failures: u8,
    /// Minimum number of consecutive successes to flip an unhealthy
    /// health check to healthy
    pub min_successes: u8,
    /// Leeway between updated before the health check status is no longer
    /// considered current
    ///
    /// To deal with variation, this should generally not be less than
    /// twice the `check_interval`.
    pub leeway: Span,
}

impl Default for Config {
    fn default() -> (config: Config)
        ensures
            config.check_interval@ == 5 * NANOS_PER_SEC,
            config.min_failures == 3,
            config.min_successes == 1,
            config.leeway@ == 15 * NANOS_PER_SEC,
    {
        Config {
            check_interval: Span::from_secs(5),
            min_failures: 3,
            min_successes: 1,
            leeway: Span::from_secs(15),
        }
    }
}

} // verus!

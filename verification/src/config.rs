//! Values derived from the runtime configuration.

use vstd::prelude::*;

verus! {

/// Advertised validity of a presence announcement, in seconds:
/// twice the broadcast period, but never below 20.
pub open spec fn cache_max_age_spec(period_secs: u64) -> int {
    if 2 * period_secs > 20 {
        2 * period_secs
    } else {
        20
    }
}

/// Computes the announcement validity embedded in every Alive and Ok
/// message: `max(20, period_secs * 2)`.
pub fn cache_max_age(period_secs: u64) -> (r: u64)
    requires
        period_secs <= u64::MAX / 2,
    ensures
        r == cache_max_age_spec(period_secs),
{
    let doubled = 2 * period_secs;
    if doubled > 20 {
        doubled
    } else {
        20
    }
}

/// The broadcast period in seconds: the configured value, or 895 when
/// none was given.
pub fn effective_period_secs(configured: Option<u64>) -> (r: u64)
    ensures
        r == match configured {
            Some(p) => p,
            None => 895u64,
        },
{
    match configured {
        Some(p) => p,
        None => 895,
    }
}

/// How much the process logs.
#[derive(Clone, Copy, Debug, PartialEq, Eq, Structural)]
pub enum Verbosity {
    Warn,
    Info,
    Debug,
    Trace,
}

/// Maps the counted `-v` flags, or the configured level, to a log
/// verbosity: absent or 0 warns only, 1 informs, 2 debugs, more traces.
pub fn verbosity_level(counted: Option<u8>) -> (r: Verbosity)
    ensures
        r == match counted {
            None => Verbosity::Warn,
            Some(v) => if v == 0 {
                Verbosity::Warn
            } else if v == 1 {
                Verbosity::Info
            } else if v == 2 {
                Verbosity::Debug
            } else {
                Verbosity::Trace
            },
        },
{
    match counted {
        None => Verbosity::Warn,
        Some(0) => Verbosity::Warn,
        Some(1) => Verbosity::Info,
        Some(2) => Verbosity::Debug,
        Some(_) => Verbosity::Trace,
    }
}

} // verus!

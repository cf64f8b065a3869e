use vstd::prelude::*;

verus! {

/// Trait for type markers that resolve to a reload period.
///
/// The period between timer-driven reloads is chosen at the type level so
/// that each CLI field can carry its own cadence without runtime
/// configuration.
pub trait Time {
    /// The duration between periodic reloads, in seconds
    spec fn period_spec() -> nat;

    /// The executable period in seconds, pinned down by the marker
    fn period_secs() -> (r: u64)
        requires
            Self::period_spec() <= u64::MAX,
        ensures
            r == Self::period_spec(),
    ;

    /// The executable period for callers that have not ruled out a marker
    /// whose period overflows the machine word
    fn try_period_secs() -> (r: Option<u64>)
        ensures
            r is Some <==> Self::period_spec() <= u64::MAX,
            r is Some ==> r->0 == Self::period_spec(),
    ;
}

/// Reload the file every `N` seconds
#[derive(Debug, Clone, Copy)]
pub struct Seconds<const N: u64>;

impl<const N: u64> Time for Seconds<N> {
    open spec fn period_spec() -> nat {
        N as nat
    }

    fn period_secs() -> (r: u64) {
        N
    }

    fn try_period_secs() -> (r: Option<u64>) {
        Some(N)
    }
}

/// Reload the file every `N` minutes
#[derive(Debug, Clone, Copy)]
pub struct Minutes<const N: u64>;

impl<const N: u64> Time for Minutes<N> {
    open spec fn period_spec() -> nat {
        60 * (N as nat)
    }

    fn period_secs() -> (r: u64) {
        60 * N
    }

    fn try_period_secs() -> (r: Option<u64>) {
        N.checked_mul(60)
    }
}

/// Reload the file every `N` hours
#[derive(Debug, Clone, Copy)]
pub struct Hours<const N: u64>;

impl<const N: u64> Time for Hours<N> {
    open spec fn period_spec() -> nat {
        3600 * (N as nat)
    }

    fn period_secs() -> (r: u64) {
        3600 * N
    }

    fn try_period_secs() -> (r: Option<u64>) {
        N.checked_mul(3600)
    }
}

} // verus!

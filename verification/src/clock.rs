//! Conversion of a wall-clock reading (whole seconds since the Unix epoch
//! plus a sub-second nanosecond remainder) into a single epoch-nanosecond
//! count, and the fact that the conversion is strictly monotone: a later
//! clock reading always yields a larger nanosecond value.

use vstd::prelude::*;

verus! {

/// Number of nanoseconds in one second; a sub-second remainder is always
/// strictly below this.
pub const NANOS_PER_SEC: u32 = 1_000_000_000;

/// The epoch-nanosecond count denoted by a clock reading of `secs` whole
/// seconds and `subsec_nanos` leftover nanoseconds since the Unix epoch.
pub open spec fn nanos_since_epoch(secs: nat, subsec_nanos: nat) -> nat {
    secs * (NANOS_PER_SEC as nat) + subsec_nanos
}

/// A clock reading is well formed when its sub-second part is a genuine
/// remainder, i.e. below one full second.
pub open spec fn reading_wf(secs: u64, subsec_nanos: u32) -> bool {
    subsec_nanos < NANOS_PER_SEC
}

/// Every well-formed clock reading, even one at the far end of the `u64`
/// second range, denotes a nanosecond count that fits in a `u128`.
pub proof fn lemma_nanos_fit_u128(secs: u64, subsec_nanos: u32)
    requires
        reading_wf(secs, subsec_nanos),
    ensures
        nanos_since_epoch(secs as nat, subsec_nanos as nat) <= u128::MAX,
{
    assert((secs as nat) * (NANOS_PER_SEC as nat) <= (u64::MAX as nat) * (NANOS_PER_SEC as nat))
        by (nonlinear_arith)
        requires
            secs <= u64::MAX,
    ;
}

/// Converts a wall-clock reading into nanoseconds since the Unix epoch,
/// exactly as the emission loop publishes it.
pub fn epoch_nanos(secs: u64, subsec_nanos: u32) -> (r: u128)
    requires
        reading_wf(secs, subsec_nanos),
    ensures
        r == nanos_since_epoch(secs as nat, subsec_nanos as nat),
{
    proof {
        lemma_nanos_fit_u128(secs, subsec_nanos);
    }
    (secs as u128) * (NANOS_PER_SEC as u128) + (subsec_nanos as u128)
}

/// Monotonicity of the conversion: of two well-formed clock readings, the
/// strictly later one denotes the strictly larger epoch-nanosecond count.
pub proof fn lemma_nanos_strictly_monotone(s1: u64, n1: u32, s2: u64, n2: u32)
    requires
        reading_wf(s1, n1),
        reading_wf(s2, n2),
        s1 < s2 || (s1 == s2 && n1 < n2),
    ensures
        nanos_since_epoch(s1 as nat, n1 as nat) < nanos_since_epoch(s2 as nat, n2 as nat),
{
    if s1 < s2 {
        assert((s1 as nat) * (NANOS_PER_SEC as nat) + (NANOS_PER_SEC as nat) <= (s2 as nat) * (
        NANOS_PER_SEC as nat)) by (nonlinear_arith)
            requires
                s1 < s2,
        ;
    }
}

} // verus!

//! The rate at which a quartz clock runs, relative to real time.
use vstd::prelude::*;

verus! {

/// The nanoseconds that a clock running at `ppm` parts per million of real time
/// counts while `elapsed` real nanoseconds pass, rounded down.
pub open spec fn drifted_nanos(elapsed: nat, ppm: nat) -> nat {
    elapsed * ppm / 1_000_000
}

/// A span of real time of `secs` seconds and `subsec_nanos` nanoseconds, in nanoseconds.
pub open spec fn elapsed_nanos(secs: u64, subsec_nanos: u32) -> nat {
    (secs as nat) * 1_000_000_000 + (subsec_nanos as nat)
}

/// A drift rate in parts per million of real time: 1,000,000 runs at real time,
/// 2,000,000 twice as fast, 100,000 at a tenth of it.
#[derive(Clone, Copy, Debug, PartialEq, Eq, Structural)]
pub struct DriftRate {
    pub parts_per_million: u32,
}

impl DriftRate {
    /// The nanoseconds that a clock at this rate counts while `elapsed_secs` seconds and
    /// `elapsed_subsec_nanos` nanoseconds of real time pass.
    pub fn scale(&self, elapsed_secs: u64, elapsed_subsec_nanos: u32) -> (n: u128)
        requires
            elapsed_subsec_nanos < 1_000_000_000,
        ensures
            n == drifted_nanos(
                elapsed_nanos(elapsed_secs, elapsed_subsec_nanos),
                self.parts_per_million as nat,
            ),
            n * 1_000_000 <= elapsed_nanos(elapsed_secs, elapsed_subsec_nanos) * self.parts_per_million,
            elapsed_nanos(elapsed_secs, elapsed_subsec_nanos) * self.parts_per_million < n * 1_000_000
                + 1_000_000,
    {
        proof {
            lemma_drift_proportional(
                elapsed_nanos(elapsed_secs, elapsed_subsec_nanos),
                self.parts_per_million as nat,
            );
        }
        let elapsed: u128 = (elapsed_secs as u128) * 1_000_000_000 + (elapsed_subsec_nanos as u128);
        let ppm: u128 = self.parts_per_million as u128;
        assert(elapsed * ppm <= 18_446_744_074_709_551_615_000_000_000u128 * 4_294_967_295u128)
            by (nonlinear_arith)
            requires
                elapsed <= 18_446_744_074_709_551_615_000_000_000u128,
                ppm <= 4_294_967_295u128,
        ;
        elapsed * ppm / 1_000_000
    }
}

impl Default for DriftRate {
    fn default() -> (rate: DriftRate)
        ensures
            rate.parts_per_million == 1_000_000,
    {
        DriftRate { parts_per_million: 1_000_000 }
    }
}

/// A clock at real time counts exactly the real time that passes.
pub proof fn lemma_real_time_keeps_pace(elapsed: nat)
    ensures
        drifted_nanos(elapsed, 1_000_000) == elapsed,
{
}

/// A clock that runs at real time or faster counts at least the real time that passes,
/// so it runs ahead of a clock that keeps real time.
pub proof fn lemma_fast_clock_runs_ahead(elapsed: nat, ppm: nat)
    requires
        ppm >= 1_000_000,
    ensures
        drifted_nanos(elapsed, ppm) >= elapsed,
{
    assert(elapsed * ppm >= elapsed * 1_000_000) by (nonlinear_arith)
        requires
            ppm >= 1_000_000,
    ;
}

/// A clock that runs at real time or slower counts at most the real time that passes.
pub proof fn lemma_slow_clock_falls_behind(elapsed: nat, ppm: nat)
    requires
        ppm <= 1_000_000,
    ensures
        drifted_nanos(elapsed, ppm) <= elapsed,
{
    assert(elapsed * ppm <= elapsed * 1_000_000) by (nonlinear_arith)
        requires
            ppm <= 1_000_000,
    ;
}

/// The longer real time runs, the more a clock counts.
pub proof fn lemma_drift_monotonic(e1: nat, e2: nat, ppm: nat)
    requires
        e1 <= e2,
    ensures
        drifted_nanos(e1, ppm) <= drifted_nanos(e2, ppm),
{
    assert(e1 * ppm <= e2 * ppm) by (nonlinear_arith)
        requires
            e1 <= e2,
    ;
    vstd::arithmetic::div_mod::lemma_div_is_ordered((e1 * ppm) as int, (e2 * ppm) as int, 1_000_000);
}

/// A clock counts the real time that passes times its rate, rounded down to the
/// nanosecond: what it counts, in millionths of a nanosecond, is at most the real time
/// times the rate in parts per million, and less than a nanosecond short of it.
pub proof fn lemma_drift_proportional(elapsed: nat, ppm: nat)
    ensures
        drifted_nanos(elapsed, ppm) * 1_000_000 <= elapsed * ppm,
        elapsed * ppm < drifted_nanos(elapsed, ppm) * 1_000_000 + 1_000_000,
{
    vstd::arithmetic::div_mod::lemma_fundamental_div_mod((elapsed * ppm) as int, 1_000_000);
}

/// Over one second of real time a clock counts exactly its rate in parts per million
/// times a thousand nanoseconds: at 5,000,000 parts per million, five seconds.
pub proof fn lemma_drift_of_a_second(ppm: nat)
    ensures
        drifted_nanos(1_000_000_000, ppm) == ppm * 1000,
{
    assert(1_000_000_000 * ppm == (ppm * 1000) * 1_000_000) by (nonlinear_arith);
    vstd::arithmetic::div_mod::lemma_fundamental_div_mod_converse(
        (1_000_000_000 * ppm) as int,
        1_000_000,
        (ppm * 1000) as int,
        0,
    );
}

/// A faster clock counts at least as much over the same real time.
pub proof fn lemma_drift_monotonic_in_rate(elapsed: nat, p1: nat, p2: nat)
    requires
        p1 <= p2,
    ensures
        drifted_nanos(elapsed, p1) <= drifted_nanos(elapsed, p2),
{
    assert(elapsed * p1 <= elapsed * p2) by (nonlinear_arith)
        requires
            p1 <= p2,
    ;
    vstd::arithmetic::div_mod::lemma_div_is_ordered((elapsed * p1) as int, (elapsed * p2) as int, 1_000_000);
}

} // verus!

//! Per-family probe classification: a consecutive-failure counter with a
//! hysteresis threshold turns a stream of raw probe outcomes into a per-tick
//! "currently considered down" level signal.

use vstd::prelude::*;

verus! {

/// Outcome of one reachability probe, as classified by the transport.
/// Any kind of failure (timeout, unreachable, permission, transport error)
/// counts identically toward the consecutive-failure counter; causes are
/// distinguished only for diagnostic logging outside the core.
#[derive(Clone, Copy, PartialEq, Eq, Debug)]
pub enum ProbeOutcome {
    Success,
    Failure,
}

/// The number of consecutive failures at the end of the outcome sequence `s`.
pub open spec fn trailing_failures(s: Seq<ProbeOutcome>) -> nat
    decreases s.len(),
{
    if s.len() == 0 {
        0
    } else if s.last() is Failure {
        trailing_failures(s.drop_last()) + 1
    } else {
        0
    }
}

/// One step of the consecutive-failure counter: reset to zero on success,
/// increment by one on failure, saturating at the counter's width.
pub open spec fn counter_step(c: nat, outcome: ProbeOutcome) -> nat {
    if outcome is Failure {
        if c + 1 <= u32::MAX {
            c + 1
        } else {
            u32::MAX as nat
        }
    } else {
        0
    }
}

/// The counter value after a prober has consumed the outcomes `s` in order,
/// starting from zero.
pub open spec fn counter_after(s: Seq<ProbeOutcome>) -> nat
    decreases s.len(),
{
    if s.len() == 0 {
        0
    } else {
        counter_step(counter_after(s.drop_last()), s.last())
    }
}

/// The level signal a prober with hysteresis threshold `threshold` reports
/// after consuming the outcomes `s`.
pub open spec fn signal_after(s: Seq<ProbeOutcome>, threshold: u32) -> bool {
    counter_after(s) >= threshold
}

/// Hysteresis state for one address family: how many probes in a row have
/// failed, and how many must fail before the family counts as down.
/// The counter is owned by exactly one prober and never shared.
pub struct Prober {
    threshold: u32,
    failures: u32,
}

impl Prober {
    /// The hysteresis threshold this prober was constructed with.
    pub closed spec fn threshold(self) -> u32 {
        self.threshold
    }

    /// The current consecutive-failure count.
    pub closed spec fn failures(self) -> u32 {
        self.failures
    }

    pub open spec fn wf(self) -> bool {
        self.threshold() >= 1
    }

    /// The level signal this prober currently reports: down exactly when the
    /// consecutive-failure count has reached the hysteresis threshold.
    pub open spec fn down(self) -> bool {
        self.failures() >= self.threshold()
    }

    pub fn new(threshold: u32) -> (r: Prober)
        requires
            threshold >= 1,
        ensures
            r.wf(),
            r.threshold() == threshold,
            r.failures() == 0,
            !r.down(),
    {
        Prober { threshold, failures: 0 }
    }

    /// The current consecutive-failure count, for diagnostic logging.
    pub fn failure_count(&self) -> (c: u32)
        ensures
            c == self.failures(),
    {
        self.failures
    }

    /// Consume one probe outcome and report the resulting level signal.
    /// A success resets the counter to zero; a failure increments it by one
    /// (saturating). The returned signal is sent every tick, whether or not
    /// it changed: edge detection is the aggregator's job.
    pub fn observe(&mut self, outcome: ProbeOutcome) -> (down: bool)
        ensures
            final(self).threshold() == old(self).threshold(),
            final(self).failures() as nat == counter_step(
                old(self).failures() as nat,
                outcome,
            ),
            down == final(self).down(),
    {
        match outcome {
            ProbeOutcome::Success => {
                self.failures = 0;
            },
            ProbeOutcome::Failure => {
                if self.failures < u32::MAX {
                    self.failures = self.failures + 1;
                }
            },
        }
        self.failures >= self.threshold
    }
}

/// There can be no more trailing failures than outcomes.
pub proof fn lemma_trailing_failures_le_len(s: Seq<ProbeOutcome>)
    ensures
        trailing_failures(s) <= s.len(),
    decreases s.len(),
{
    if s.len() > 0 {
        lemma_trailing_failures_le_len(s.drop_last());
    }
}

/// Law: as long as the outcome sequence is short enough that the counter
/// cannot saturate, the counter is exactly the number of trailing
/// consecutive failures.
pub proof fn lemma_counter_counts_trailing_failures(s: Seq<ProbeOutcome>)
    requires
        s.len() <= u32::MAX,
    ensures
        counter_after(s) == trailing_failures(s),
    decreases s.len(),
{
    if s.len() > 0 {
        lemma_counter_counts_trailing_failures(s.drop_last());
        lemma_trailing_failures_le_len(s.drop_last());
    }
}

/// Law: for every sequence of per-tick outcomes, the down signal is raised
/// exactly when the number of trailing consecutive failures has reached the
/// hysteresis threshold, and it falls on the very next success.
/// (Sequences long enough to saturate the 32-bit counter are excluded.)
pub proof fn lemma_down_signal_characterization(s: Seq<ProbeOutcome>, threshold: u32)
    requires
        threshold >= 1,
        s.len() <= u32::MAX,
    ensures
        signal_after(s, threshold) == (trailing_failures(s) >= threshold),
        !signal_after(s.push(ProbeOutcome::Success), threshold),
{
    lemma_counter_counts_trailing_failures(s);
    assert(s.push(ProbeOutcome::Success).drop_last() =~= s);
}

/// Law: with a hysteresis threshold of one, a single probe failure raises
/// the down signal immediately, whatever came before it.
pub proof fn lemma_single_failure_trips_unit_threshold(s: Seq<ProbeOutcome>)
    ensures
        signal_after(s.push(ProbeOutcome::Failure), 1),
{
    assert(s.push(ProbeOutcome::Failure).drop_last() =~= s);
}

} // verus!

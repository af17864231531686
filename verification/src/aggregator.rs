//! The reachability state machine: merges the two per-family down signals
//! into one combined state, emits events only on state transitions, and
//! accounts for how long each outage condition has held using wall-clock
//! timestamps supplied by the caller.

use vstd::prelude::*;
use vstd::string::*;

use crate::timefmt::format_hms;
use crate::timefmt::hms_str;

verus! {

/// Which probe stream a signal belongs to.
#[derive(Clone, Copy, PartialEq, Eq, Debug)]
pub enum AddressFamily {
    V4,
    V6,
}

/// Joint reachability classification across both address families.
#[derive(Clone, Copy, PartialEq, Eq, Debug)]
pub enum CombinedState {
    Healthy,
    V4Down,
    V6Down,
    FullyDown,
}

/// The combined state is a pure function of the latest known down signal of
/// each family; nothing else influences the mapping.
pub open spec fn combined_of(v4_down: bool, v6_down: bool) -> CombinedState {
    if v4_down && v6_down {
        CombinedState::FullyDown
    } else if v4_down {
        CombinedState::V4Down
    } else if v6_down {
        CombinedState::V6Down
    } else {
        CombinedState::Healthy
    }
}

/// Compute the combined state from the two level signals.
pub fn combine(v4_down: bool, v6_down: bool) -> (r: CombinedState)
    ensures
        r == combined_of(v4_down, v6_down),
{
    if v4_down && v6_down {
        CombinedState::FullyDown
    } else if v4_down {
        CombinedState::V4Down
    } else if v6_down {
        CombinedState::V6Down
    } else {
        CombinedState::Healthy
    }
}

/// A transition event, emitted only when the combined state changes.
/// Down transitions are logged at error level, recoveries at info level;
/// a recovery carries the outage duration in whole seconds when the
/// matching outage clock was running.
#[derive(Clone, Copy, PartialEq, Eq, Debug)]
pub enum Event {
    FamilyDown { family: AddressFamily },
    FullyDown,
    FamilyUp { family: AddressFamily, duration: Option<u64> },
    FullyUp { duration: Option<u64> },
}

/// The aggregator's whole state: the latest known down signal per family
/// (false until the first signal arrives), one outage clock per family plus
/// one for the fully-down condition, and the latest wall-clock timestamp it
/// has been shown (timestamps are whole seconds on a monotonic clock).
pub struct Aggregator {
    pub v4_down: bool,
    pub v6_down: bool,
    pub v4_since: Option<u64>,
    pub v6_since: Option<u64>,
    pub full_since: Option<u64>,
    pub clock: u64,
}

impl Aggregator {
    /// Each outage clock runs while, and only while, its condition holds,
    /// and never starts in the future.
    pub open spec fn wf(self) -> bool {
        &&& (self.v4_since is Some <==> self.v4_down)
        &&& (self.v6_since is Some <==> self.v6_down)
        &&& (self.full_since is Some <==> (self.v4_down && self.v6_down))
        &&& (self.v4_since is Some ==> self.v4_since->0 <= self.clock)
        &&& (self.v6_since is Some ==> self.v6_since->0 <= self.clock)
        &&& (self.full_since is Some ==> self.full_since->0 <= self.clock)
    }

    /// The current combined state.
    pub open spec fn state(self) -> CombinedState {
        combined_of(self.v4_down, self.v6_down)
    }

    /// The initial aggregator: both families presumed reachable, no outage
    /// clock running.
    pub open spec fn init() -> Aggregator {
        Aggregator {
            v4_down: false,
            v6_down: false,
            v4_since: None,
            v6_since: None,
            full_since: None,
            clock: 0,
        }
    }

    pub fn new() -> (r: Aggregator)
        ensures
            r == Aggregator::init(),
            r.wf(),
            r.state() is Healthy,
    {
        Aggregator {
            v4_down: false,
            v6_down: false,
            v4_since: None,
            v6_since: None,
            full_since: None,
            clock: 0,
        }
    }

    /// Consume one down signal for one family, using the latest known value
    /// of the family that did not just update, and report the transition
    /// events this signal causes (none when the combined state is unchanged).
    pub fn update(&mut self, family: AddressFamily, down: bool, now: u64) -> (events: Vec<
        Event,
    >)
        requires
            old(self).wf(),
            now >= old(self).clock,
        ensures
            final(self).wf(),
            *final(self) == stepped(*old(self), family, down, now),
            events@ == step_events(*old(self), family, down, now),
            (events@.len() == 0) <==> (final(self).state() == old(self).state()),
    {
        let prev_v4 = self.v4_down;
        let prev_v6 = self.v6_down;
        let new_v4: bool = match family {
            AddressFamily::V4 => down,
            AddressFamily::V6 => prev_v4,
        };
        let new_v6: bool = match family {
            AddressFamily::V4 => prev_v6,
            AddressFamily::V6 => down,
        };

        let mut events: Vec<Event> = Vec::new();
        if new_v4 && new_v6 {
            if !(prev_v4 && prev_v6) {
                events.push(Event::FullyDown);
            }
        } else if new_v4 {
            if !prev_v4 {
                events.push(Event::FamilyDown { family: AddressFamily::V4 });
            }
            if prev_v6 {
                events.push(
                    Event::FamilyUp {
                        family: AddressFamily::V6,
                        duration: elapsed_since(self.v6_since, now),
                    },
                );
            }
        } else if new_v6 {
            if !prev_v6 {
                events.push(Event::FamilyDown { family: AddressFamily::V6 });
            }
            if prev_v4 {
                events.push(
                    Event::FamilyUp {
                        family: AddressFamily::V4,
                        duration: elapsed_since(self.v4_since, now),
                    },
                );
            }
        } else {
            if prev_v4 && prev_v6 {
                events.push(Event::FullyUp { duration: elapsed_since(self.full_since, now) });
            } else if prev_v4 {
                events.push(
                    Event::FamilyUp {
                        family: AddressFamily::V4,
                        duration: elapsed_since(self.v4_since, now),
                    },
                );
            } else if prev_v6 {
                events.push(
                    Event::FamilyUp {
                        family: AddressFamily::V6,
                        duration: elapsed_since(self.v6_since, now),
                    },
                );
            }
        }

        self.v4_down = new_v4;
        self.v6_down = new_v6;
        self.v4_since = advance_clock(self.v4_since, new_v4, now);
        self.v6_since = advance_clock(self.v6_since, new_v6, now);
        self.full_since = advance_clock(self.full_since, new_v4 && new_v6, now);
        self.clock = now;

        proof {
            assert(events@ =~= step_events(*old(self), family, down, now));
            lemma_events_iff_transition(*old(self), new_v4, new_v6, now);
        }
        events
    }
}

/// The pair of down signals after one update: the updated family takes the
/// new value, the other keeps its latest known value.
pub open spec fn new_pair(a: Aggregator, family: AddressFamily, down: bool) -> (bool, bool) {
    match family {
        AddressFamily::V4 => (down, a.v6_down),
        AddressFamily::V6 => (a.v4_down, down),
    }
}

/// The elapsed whole seconds since a clock started, if it is running.
pub open spec fn duration_since(since: Option<u64>, now: u64) -> Option<u64> {
    match since {
        Some(t) => Some((now - t) as u64),
        None => None,
    }
}

/// How one outage clock moves when its condition is re-evaluated at `now`:
/// it keeps its start while the condition holds, starts at `now` when the
/// condition newly becomes true, and stops when the condition is false.
pub open spec fn clock_next(since: Option<u64>, cond: bool, now: u64) -> Option<u64> {
    if cond {
        if since is Some {
            since
        } else {
            Some(now)
        }
    } else {
        None
    }
}

/// The aggregator state after consuming one down signal at time `now`.
pub open spec fn stepped(a: Aggregator, family: AddressFamily, down: bool, now: u64) -> Aggregator {
    let (v4, v6) = new_pair(a, family, down);
    Aggregator {
        v4_down: v4,
        v6_down: v6,
        v4_since: clock_next(a.v4_since, v4, now),
        v6_since: clock_next(a.v6_since, v6, now),
        full_since: clock_next(a.full_since, v4 && v6, now),
        clock: now,
    }
}

/// The events emitted when the known pair of down signals moves from the one
/// recorded in `a` to `(v4, v6)` at time `now`. Entering the fully-down state
/// emits the single fully-down event in place of any per-family down event;
/// a recovery event carries the elapsed time of the clock that its condition
/// was holding open.
pub open spec fn events_of(a: Aggregator, v4: bool, v6: bool, now: u64) -> Seq<Event> {
    if v4 && v6 {
        if a.v4_down && a.v6_down {
            seq![]
        } else {
            seq![Event::FullyDown]
        }
    } else if v4 {
        (if !a.v4_down {
            seq![Event::FamilyDown { family: AddressFamily::V4 }]
        } else {
            seq![]
        }) + (if a.v6_down {
            seq![
                Event::FamilyUp {
                    family: AddressFamily::V6,
                    duration: duration_since(a.v6_since, now),
                },
            ]
        } else {
            seq![]
        })
    } else if v6 {
        (if !a.v6_down {
            seq![Event::FamilyDown { family: AddressFamily::V6 }]
        } else {
            seq![]
        }) + (if a.v4_down {
            seq![
                Event::FamilyUp {
                    family: AddressFamily::V4,
                    duration: duration_since(a.v4_since, now),
                },
            ]
        } else {
            seq![]
        })
    } else {
        if a.v4_down && a.v6_down {
            seq![Event::FullyUp { duration: duration_since(a.full_since, now) }]
        } else if a.v4_down {
            seq![
                Event::FamilyUp {
                    family: AddressFamily::V4,
                    duration: duration_since(a.v4_since, now),
                },
            ]
        } else if a.v6_down {
            seq![
                Event::FamilyUp {
                    family: AddressFamily::V6,
                    duration: duration_since(a.v6_since, now),
                },
            ]
        } else {
            seq![]
        }
    }
}

/// The events emitted by one update, phrased over the update's arguments.
pub open spec fn step_events(a: Aggregator, family: AddressFamily, down: bool, now: u64) -> Seq<
    Event,
> {
    let (v4, v6) = new_pair(a, family, down);
    events_of(a, v4, v6, now)
}

fn elapsed_since(since: Option<u64>, now: u64) -> (r: Option<u64>)
    requires
        since is Some ==> since->0 <= now,
    ensures
        r == duration_since(since, now),
{
    match since {
        Some(t) => Some(now - t),
        None => None,
    }
}

fn advance_clock(since: Option<u64>, cond: bool, now: u64) -> (r: Option<u64>)
    ensures
        r == clock_next(since, cond, now),
{
    if cond {
        match since {
            Some(t) => Some(t),
            None => Some(now),
        }
    } else {
        None
    }
}

/// Law: an update emits an event exactly when the combined state changes;
/// in particular, two updates that leave the state unchanged can never emit
/// two consecutive events of the same state.
pub proof fn lemma_events_iff_transition(a: Aggregator, v4: bool, v6: bool, now: u64)
    ensures
        (events_of(a, v4, v6, now).len() == 0) <==> (combined_of(v4, v6) == a.state()),
{
}

/// Law: when both families are down after an update but were not both down
/// before it, exactly one event is emitted — the fully-down one — and no
/// separate per-family down event.
pub proof fn lemma_fully_down_single_event(a: Aggregator, now: u64)
    requires
        !(a.v4_down && a.v6_down),
    ensures
        events_of(a, true, true, now) =~= seq![Event::FullyDown],
{
}

/// Law: a family's recovery event reports exactly the wall-clock time
/// between the update that began that family's outage and the update that
/// ended it — non-negative, and independent of how many ticks lay between.
pub proof fn lemma_outage_duration_exact(
    a: Aggregator,
    family: AddressFamily,
    t_down: u64,
    t_up: u64,
)
    requires
        a.wf(),
        family is V4 ==> !a.v4_down,
        family is V6 ==> !a.v6_down,
        a.clock <= t_down,
        t_down <= t_up,
    ensures
        step_events(stepped(a, family, true, t_down), family, false, t_up).contains(
            Event::FamilyUp { family, duration: Some((t_up - t_down) as u64) },
        ),
{
    let mid = stepped(a, family, true, t_down);
    let evs = step_events(mid, family, false, t_up);
    let ev = Event::FamilyUp { family, duration: Some((t_up - t_down) as u64) };
    match family {
        AddressFamily::V4 => {
            if a.v6_down {
                assert(evs[0] == ev);
            }
            assert(evs.contains(ev));
        },
        AddressFamily::V6 => {
            if a.v4_down {
                assert(evs[0] == ev);
            }
            assert(evs.contains(ev));
        },
    }
}

/// The display name of an address family.
pub open spec fn family_name(f: AddressFamily) -> Seq<char> {
    if f is V4 {
        "IPv4"@
    } else {
        "IPv6"@
    }
}

/// The log message that belongs to an event.
pub open spec fn message_of(e: Event) -> Seq<char> {
    match e {
        Event::FamilyDown { family } => family_name(family) + " is down!"@,
        Event::FullyDown => "network is down!"@,
        Event::FamilyUp { family, duration: Some(d) } => family_name(family)
            + " is back online, and was down for "@ + hms_str(d as nat),
        Event::FamilyUp { family, duration: None } => family_name(family) + " is back online"@,
        Event::FullyUp { duration: Some(d) } => "network is back online, and was down for "@
            + hms_str(d as nat),
        Event::FullyUp { duration: None } => "network is back online"@,
    }
}

fn family_str(f: AddressFamily) -> (r: &'static str)
    ensures
        r@ == family_name(f),
{
    match f {
        AddressFamily::V4 => "IPv4",
        AddressFamily::V6 => "IPv6",
    }
}

impl Event {
    /// Down transitions are reported at error level, recoveries at info
    /// level.
    pub fn is_error_level(&self) -> (b: bool)
        ensures
            b == (self is FamilyDown || self is FullyDown),
    {
        match self {
            Event::FamilyDown { .. } => true,
            Event::FullyDown => true,
            _ => false,
        }
    }

    /// Render the log message for this event, with any outage duration
    /// formatted as zero-padded hours:minutes:seconds.
    pub fn message(&self) -> (r: String)
        ensures
            r@ == message_of(*self),
    {
        let mut out = String::new();
        match self {
            Event::FamilyDown { family } => {
                out.append(family_str(*family));
                out.append(" is down!");
                proof {
                    assert(out@ =~= message_of(*self));
                }
            },
            Event::FullyDown => {
                out.append("network is down!");
                proof {
                    assert(out@ =~= message_of(*self));
                }
            },
            Event::FamilyUp { family, duration } => {
                out.append(family_str(*family));
                match duration {
                    Some(d) => {
                        out.append(" is back online, and was down for ");
                        let hms = format_hms(*d);
                        out.append(hms.as_str());
                    },
                    None => {
                        out.append(" is back online");
                    },
                }
                proof {
                    assert(out@ =~= message_of(*self));
                }
            },
            Event::FullyUp { duration } => {
                match duration {
                    Some(d) => {
                        out.append("network is back online, and was down for ");
                        let hms = format_hms(*d);
                        out.append(hms.as_str());
                    },
                    None => {
                        out.append("network is back online");
                    },
                }
                proof {
                    assert(out@ =~= message_of(*self));
                }
            },
        }
        out
    }
}

} // verus!

//! The readiness poll: probe an address until it accepts a connection or a
//! deadline has passed.
//!
//! The poller decides; its caller reads the clock, probes and sleeps, and
//! reports each result as an event.

use vstd::prelude::*;

verus! {

/// How long a driver gets to accept its first connection, in milliseconds.
pub const DEADLINE_MS: u64 = 30_000;

/// The pause after a refused probe, in milliseconds.
pub const RETRY_MS: u64 = 500;

/// What the poller waits for.
#[derive(Clone, Copy, Debug, PartialEq, Eq, Structural)]
pub enum PollPhase {
    /// A reading of the time that has passed since polling began.
    Clock,
    /// The result of a connection attempt.
    Probe,
    /// The end of the pause after a refused attempt.
    Sleep,
    /// Nothing: the poll is over.
    Done { ready: bool },
}

/// What the caller is to do next.
#[derive(Clone, Copy, Debug, PartialEq, Eq, Structural)]
pub enum PollAction {
    /// Read the time passed since polling began and report it.
    ReadClock,
    /// Attempt one connection, close it if it succeeds, and report the result.
    Probe,
    /// Pause for `millis` milliseconds, then report that it is over.
    Sleep { millis: u64 },
    /// Stop polling: the address is ready, or the deadline has passed.
    Stop { ready: bool },
}

/// What the caller reports.
#[derive(Clone, Copy, Debug, PartialEq, Eq, Structural)]
pub enum PollEvent {
    Clock { elapsed_ms: u64 },
    Connected,
    Refused,
    Slept,
}

/// The state of one readiness poll.
#[derive(Clone, Copy, Debug, PartialEq, Eq, Structural)]
pub struct Poller {
    pub deadline_ms: u64,
    pub phase: PollPhase,
}

impl Poller {
    /// The state after `event`. An event that the phase does not wait for
    /// changes nothing.
    pub open spec fn next(self, event: PollEvent) -> Poller {
        let phase = match (self.phase, event) {
            (PollPhase::Clock, PollEvent::Clock { elapsed_ms }) => if elapsed_ms
                < self.deadline_ms {
                PollPhase::Probe
            } else {
                PollPhase::Done { ready: false }
            },
            (PollPhase::Probe, PollEvent::Connected) => PollPhase::Done { ready: true },
            (PollPhase::Probe, PollEvent::Refused) => PollPhase::Sleep,
            (PollPhase::Sleep, PollEvent::Slept) => PollPhase::Clock,
            _ => self.phase,
        };
        Poller { deadline_ms: self.deadline_ms, phase }
    }

    /// The action that the current phase asks for.
    pub open spec fn pending(self) -> PollAction {
        match self.phase {
            PollPhase::Clock => PollAction::ReadClock,
            PollPhase::Probe => PollAction::Probe,
            PollPhase::Sleep => PollAction::Sleep { millis: RETRY_MS },
            PollPhase::Done { ready } => PollAction::Stop { ready },
        }
    }

    /// The state after each of `events` in turn.
    pub open spec fn run(self, events: Seq<PollEvent>) -> Poller
        decreases events.len(),
    {
        if events.len() == 0 {
            self
        } else {
            self.run(events.drop_last()).next(events.last())
        }
    }

    /// A poll with the given deadline, about to read the clock.
    pub fn new(deadline_ms: u64) -> (r: Poller)
        ensures
            r == (Poller { deadline_ms, phase: PollPhase::Clock }),
    {
        Poller { deadline_ms, phase: PollPhase::Clock }
    }

    /// A poll with the standard deadline of thirty seconds.
    pub fn standard() -> (r: Poller)
        ensures
            r == (Poller { deadline_ms: DEADLINE_MS, phase: PollPhase::Clock }),
    {
        Poller::new(DEADLINE_MS)
    }

    /// The action that the poller asks for now.
    pub fn action(&self) -> (r: PollAction)
        ensures
            r == self.pending(),
    {
        match self.phase {
            PollPhase::Clock => PollAction::ReadClock,
            PollPhase::Probe => PollAction::Probe,
            PollPhase::Sleep => PollAction::Sleep { millis: RETRY_MS },
            PollPhase::Done { ready } => PollAction::Stop { ready },
        }
    }

    /// Takes in `event` and says what to do next.
    pub fn step(&mut self, event: PollEvent) -> (r: PollAction)
        ensures
            *final(self) == old(self).next(event),
            r == final(self).pending(),
    {
        match (self.phase, event) {
            (PollPhase::Clock, PollEvent::Clock { elapsed_ms }) => {
                if elapsed_ms < self.deadline_ms {
                    self.phase = PollPhase::Probe;
                } else {
                    self.phase = PollPhase::Done { ready: false };
                }
            },
            (PollPhase::Probe, PollEvent::Connected) => {
                self.phase = PollPhase::Done { ready: true };
            },
            (PollPhase::Probe, PollEvent::Refused) => {
                self.phase = PollPhase::Sleep;
            },
            (PollPhase::Sleep, PollEvent::Slept) => {
                self.phase = PollPhase::Clock;
            },
            _ => {},
        }
        self.action()
    }

    /// The result of the poll once it is over, `None` while it runs.
    pub fn result(&self) -> (r: Option<bool>)
        ensures
            r == match self.phase {
                PollPhase::Done { ready } => Some(ready),
                _ => None::<bool>,
            },
    {
        match self.phase {
            PollPhase::Done { ready } => Some(ready),
            _ => None,
        }
    }
}

/// The poll gives up only on a clock reading at or past the deadline, and
/// probes only after a reading before it.
pub proof fn law_deadline_decides(p: Poller, event: PollEvent)
    requires
        p.phase == PollPhase::Clock,
    ensures
        p.next(event).phase == (PollPhase::Done { ready: false }) <==> (event matches PollEvent::Clock {
            elapsed_ms,
        } && elapsed_ms >= p.deadline_ms),
        p.next(event).phase == PollPhase::Probe <==> (event matches PollEvent::Clock { elapsed_ms }
            && elapsed_ms < p.deadline_ms),
{
}

/// The poll reports ready exactly when a probe connected, and then at once;
/// a refused probe is followed by the fixed pause, and the pause by a new
/// reading of the clock, so the deadline is never reset.
pub proof fn law_probe_decides(p: Poller, event: PollEvent)
    requires
        p.phase == PollPhase::Probe,
    ensures
        p.next(event).pending() == (PollAction::Stop { ready: true }) <==> event
            == PollEvent::Connected,
        event == PollEvent::Refused ==> p.next(event).pending() == (PollAction::Sleep {
            millis: RETRY_MS,
        }) && p.next(event).next(PollEvent::Slept).pending() == PollAction::ReadClock,
        p.next(event).deadline_ms == p.deadline_ms,
{
}

/// A late clock reading: one at or past the deadline.
pub open spec fn is_late(event: PollEvent, deadline_ms: u64) -> bool {
    match event {
        PollEvent::Clock { elapsed_ms } => elapsed_ms >= deadline_ms,
        _ => false,
    }
}

/// Whatever is reported, and in whatever order: the deadline stays as it
/// was set; a poll that ends not ready has seen a clock reading at or past
/// the deadline; a poll that ends ready has seen a probe connect.
pub proof fn law_verdict_has_a_cause(p: Poller, events: Seq<PollEvent>)
    requires
        !(p.phase is Done),
    ensures
        p.run(events).deadline_ms == p.deadline_ms,
        p.run(events).phase == (PollPhase::Done { ready: false }) ==> exists|j: int|
            0 <= j < events.len() && is_late(#[trigger] events[j], p.deadline_ms),
        p.run(events).phase == (PollPhase::Done { ready: true }) ==> exists|j: int|
            0 <= j < events.len() && #[trigger] events[j] == PollEvent::Connected,
    decreases events.len(),
{
    if events.len() > 0 {
        let front = events.drop_last();
        let last = events.len() - 1;
        law_verdict_has_a_cause(p, front);
        let before = p.run(front);
        if before.phase is Done {
            assert(p.run(events) == before);
            if before.phase == (PollPhase::Done { ready: false }) {
                let j = choose|j: int| 0 <= j < front.len() && is_late(#[trigger] front[j], p.deadline_ms);
                assert(events[j] == front[j]);
            } else {
                let j = choose|j: int| 0 <= j < front.len() && #[trigger] front[j] == PollEvent::Connected;
                assert(events[j] == front[j]);
            }
        } else {
            if p.run(events).phase == (PollPhase::Done { ready: false }) {
                assert(is_late(events[last], p.deadline_ms));
            }
            if p.run(events).phase == (PollPhase::Done { ready: true }) {
                assert(events[last] == PollEvent::Connected);
            }
        }
    }
}

/// A poll that is over stays over, with the same result, whatever is
/// reported to it.
pub proof fn law_done_is_final(p: Poller, events: Seq<PollEvent>)
    requires
        p.phase is Done,
    ensures
        p.run(events) == p,
    decreases events.len(),
{
    if events.len() > 0 {
        law_done_is_final(p, events.drop_last());
    }
}

} // verus!

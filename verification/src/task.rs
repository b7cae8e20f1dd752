//! One check task: start a driver on a port of its own, wait until it is
//! ready, open a session, navigate, verify the URL, capture a screenshot,
//! and terminate the driver on every path.
//!
//! The task decides; its caller performs each action and reports the result
//! as an event.

use vstd::prelude::*;
use crate::failure::Failure;
use crate::failure::Outcome;
use crate::poll::PollEvent;
use crate::poll::PollPhase;
use crate::poll::Poller;
use crate::poll::DEADLINE_MS;
use crate::poll::RETRY_MS;

verus! {

/// What the task waits for: the result of the one action it has asked for.
#[derive(Clone, Copy, Debug, PartialEq, Eq, Structural)]
pub enum Stage {
    /// The port that the system assigned.
    Port,
    /// The start of the driver process.
    Spawn,
    /// A reading of the time since polling began.
    Clock,
    /// A connection attempt at the driver's port.
    Probe,
    /// The end of the pause after a refused attempt.
    Sleep,
    /// The opening of the remote session.
    Session,
    /// The navigation to the endpoint.
    Navigate,
    /// The session's current URL.
    Url,
    /// The screenshot.
    Screenshot,
    /// The termination of the driver process.
    Kill,
    /// Nothing: the outcome stands.
    Finished,
}

/// What the caller is to do next.
#[derive(Clone, Copy, Debug, PartialEq, Eq, Structural)]
pub enum Action {
    /// Bind a listener to port 0 on loopback, read the port it got, release
    /// the listener and report the port.
    AllocatePort,
    /// Start the driver process on `port`.
    SpawnDriver { port: u16 },
    /// Report the time since this action was first asked for, in milliseconds.
    ReadClock,
    /// Attempt one connection to `port` on loopback and close it.
    Probe { port: u16 },
    /// Pause for `millis` milliseconds.
    Sleep { millis: u64 },
    /// Open a remote session with the driver at `port`.
    OpenSession { port: u16 },
    /// Send the session to the task's endpoint.
    Navigate,
    /// Ask the session for its current URL and report it.
    QueryUrl,
    /// Capture a screenshot and report its bytes.
    Screenshot,
    /// Terminate the driver process.
    KillDriver,
    /// Report the outcome: the task is over.
    Report { outcome: Outcome },
}

/// The result of the action last asked for.
#[derive(Clone, Debug, PartialEq, Eq)]
pub enum Event {
    /// The action failed; for a probe: the connection was refused.
    Failed,
    /// The action succeeded and has nothing to hand over.
    Completed,
    /// The port that was allocated.
    Port(u16),
    /// Milliseconds since polling began.
    Clock(u64),
    /// The session's current URL.
    Url(String),
    /// The bytes of the screenshot.
    Picture(Vec<u8>),
}

/// A check task as a mathematical value.
pub struct TaskView {
    pub endpoint: Seq<char>,
    pub expected: Seq<char>,
    pub deadline_ms: u64,
    pub stage: Stage,
    pub port: u16,
    pub failure: Option<Failure>,
    pub candidate: Option<Seq<u8>>,
}

/// The poll phase that a stage stands for, if it is one of the poll.
pub open spec fn poll_phase(stage: Stage) -> Option<PollPhase> {
    match stage {
        Stage::Clock => Some(PollPhase::Clock),
        Stage::Probe => Some(PollPhase::Probe),
        Stage::Sleep => Some(PollPhase::Sleep),
        _ => None,
    }
}

/// What an event means to the poll in the given phase, if anything.
pub open spec fn poll_event(phase: PollPhase, event: Event) -> Option<PollEvent> {
    match (phase, event) {
        (PollPhase::Clock, Event::Clock(elapsed_ms)) => Some(PollEvent::Clock { elapsed_ms }),
        (PollPhase::Probe, Event::Completed) => Some(PollEvent::Connected),
        (PollPhase::Probe, Event::Failed) => Some(PollEvent::Refused),
        (PollPhase::Sleep, Event::Completed) => Some(PollEvent::Slept),
        _ => None,
    }
}

impl TaskView {
    /// A task that has done nothing yet.
    pub open spec fn fresh(endpoint: Seq<char>, expected: Seq<char>) -> TaskView {
        TaskView {
            endpoint,
            expected,
            deadline_ms: DEADLINE_MS,
            stage: Stage::Port,
            port: 0,
            failure: None,
            candidate: None,
        }
    }

    /// The driver process was started and not yet asked to terminate, or the
    /// request is under way.
    pub open spec fn live(self) -> bool {
        self.stage != Stage::Port && self.stage != Stage::Spawn && self.stage != Stage::Finished
    }

    /// The same task in another stage.
    pub open spec fn at(self, stage: Stage) -> TaskView {
        TaskView { stage, ..self }
    }

    /// The pipeline is abandoned for `reason`: a live driver is terminated
    /// next, and without one the task is over.
    pub open spec fn fail(self, reason: Failure) -> TaskView {
        TaskView {
            stage: if self.live() {
                Stage::Kill
            } else {
                Stage::Finished
            },
            failure: Some(reason),
            ..self
        }
    }

    /// Where a step without a result to hand over leads: on, where it
    /// succeeded; else out, with `reason` where it failed and as a fault
    /// where the event is none that the stage waits for.
    pub open spec fn advance(self, event: Event, on: Stage, reason: Failure) -> TaskView {
        match event {
            Event::Completed => self.at(on),
            Event::Failed => self.fail(reason),
            _ => self.fail(Failure::Fault),
        }
    }

    /// The state after `event`.
    pub open spec fn next(self, event: Event) -> TaskView {
        match self.stage {
            Stage::Port => match event {
                Event::Port(port) => TaskView { stage: Stage::Spawn, port, ..self },
                Event::Failed => self.fail(Failure::Process),
                _ => self.fail(Failure::Fault),
            },
            Stage::Spawn => self.advance(event, Stage::Clock, Failure::Process),
            Stage::Clock | Stage::Probe | Stage::Sleep => {
                let poller = Poller { deadline_ms: self.deadline_ms, phase: poll_phase(self.stage).unwrap() };
                match poll_event(poller.phase, event) {
                    Some(e) => match poller.next(e).phase {
                        PollPhase::Clock => self.at(Stage::Clock),
                        PollPhase::Probe => self.at(Stage::Probe),
                        PollPhase::Sleep => self.at(Stage::Sleep),
                        PollPhase::Done { ready } => if ready {
                            self.at(Stage::Session)
                        } else {
                            self.fail(Failure::Timeout)
                        },
                    },
                    None => self.fail(Failure::Fault),
                }
            },
            Stage::Session => self.advance(event, Stage::Navigate, Failure::Protocol),
            Stage::Navigate => self.advance(event, Stage::Url, Failure::Protocol),
            Stage::Url => match event {
                Event::Url(url) => if url@ == self.expected {
                    self.at(Stage::Screenshot)
                } else {
                    self.fail(Failure::Mismatch)
                },
                Event::Failed => self.fail(Failure::Protocol),
                _ => self.fail(Failure::Fault),
            },
            Stage::Screenshot => match event {
                Event::Picture(bytes) => TaskView {
                    stage: Stage::Kill,
                    candidate: Some(bytes@),
                    ..self
                },
                Event::Failed => self.fail(Failure::Protocol),
                _ => self.fail(Failure::Fault),
            },
            Stage::Kill => match event {
                Event::Completed => self.at(Stage::Finished),
                _ => TaskView { stage: Stage::Finished, failure: Some(Failure::Process), ..self },
            },
            Stage::Finished => self,
        }
    }

    /// The action that the current stage asks for.
    pub open spec fn pending(self) -> Action {
        match self.stage {
            Stage::Port => Action::AllocatePort,
            Stage::Spawn => Action::SpawnDriver { port: self.port },
            Stage::Clock => Action::ReadClock,
            Stage::Probe => Action::Probe { port: self.port },
            Stage::Sleep => Action::Sleep { millis: RETRY_MS },
            Stage::Session => Action::OpenSession { port: self.port },
            Stage::Navigate => Action::Navigate,
            Stage::Url => Action::QueryUrl,
            Stage::Screenshot => Action::Screenshot,
            Stage::Kill => Action::KillDriver,
            Stage::Finished => Action::Report { outcome: Outcome::of(self.failure) },
        }
    }

    /// The outcome, once the task is over.
    pub open spec fn outcome(self) -> Option<Outcome> {
        if self.stage == Stage::Finished {
            Some(Outcome::of(self.failure))
        } else {
            None
        }
    }

    /// The state after each of `events` in turn.
    pub open spec fn run(self, events: Seq<Event>) -> TaskView
        decreases events.len(),
    {
        if events.len() == 0 {
            self
        } else {
            self.run(events.drop_last()).next(events.last())
        }
    }

    /// How often a caller who performs each pending action once, and reports
    /// `events` for them, asks the driver to terminate.
    pub open spec fn kills(self, events: Seq<Event>) -> nat
        decreases events.len(),
    {
        if events.len() == 0 {
            0
        } else {
            self.kills(events.drop_last()) + if self.run(events.drop_last()).stage
                == Stage::Kill {
                1nat
            } else {
                0nat
            }
        }
    }

    /// How often such a caller starts a driver process with success.
    pub open spec fn spawns(self, events: Seq<Event>) -> nat
        decreases events.len(),
    {
        if events.len() == 0 {
            0
        } else {
            self.spawns(events.drop_last()) + if self.run(events.drop_last()).stage
                == Stage::Spawn && events.last() is Completed {
                1nat
            } else {
                0nat
            }
        }
    }
}

/// One check task against one endpoint.
pub struct CheckTask {
    endpoint: String,
    expected: String,
    deadline_ms: u64,
    stage: Stage,
    port: u16,
    failure: Option<Failure>,
    candidate: Option<Vec<u8>>,
}

impl View for CheckTask {
    type V = TaskView;

    closed spec fn view(&self) -> TaskView {
        TaskView {
            endpoint: self.endpoint@,
            expected: self.expected@,
            deadline_ms: self.deadline_ms,
            stage: self.stage,
            port: self.port,
            failure: self.failure,
            candidate: match self.candidate {
                Some(bytes) => Some(bytes@),
                None => None,
            },
        }
    }
}

impl CheckTask {
    /// A task that will send its session to `endpoint` and expects it to
    /// land on `expected`.
    pub fn new(endpoint: String, expected: String) -> (r: CheckTask)
        ensures
            r@ == TaskView::fresh(endpoint@, expected@),
    {
        CheckTask {
            endpoint,
            expected,
            deadline_ms: DEADLINE_MS,
            stage: Stage::Port,
            port: 0,
            failure: None,
            candidate: None,
        }
    }

    /// The action that the task asks for now.
    pub fn action(&self) -> (r: Action)
        ensures
            r == self@.pending(),
    {
        match self.stage {
            Stage::Port => Action::AllocatePort,
            Stage::Spawn => Action::SpawnDriver { port: self.port },
            Stage::Clock => Action::ReadClock,
            Stage::Probe => Action::Probe { port: self.port },
            Stage::Sleep => Action::Sleep { millis: RETRY_MS },
            Stage::Session => Action::OpenSession { port: self.port },
            Stage::Navigate => Action::Navigate,
            Stage::Url => Action::QueryUrl,
            Stage::Screenshot => Action::Screenshot,
            Stage::Kill => Action::KillDriver,
            Stage::Finished => Action::Report {
                outcome: match self.failure {
                    Some(f) => Outcome::Failed(f),
                    None => Outcome::Success,
                },
            },
        }
    }

    fn abandon(&mut self, reason: Failure)
        ensures
            final(self)@ == old(self)@.fail(reason),
    {
        self.stage = match self.stage {
            Stage::Port | Stage::Spawn | Stage::Finished => Stage::Finished,
            _ => Stage::Kill,
        };
        self.failure = Some(reason);
    }

    fn proceed(&mut self, event: Event, on: Stage, reason: Failure)
        ensures
            final(self)@ == old(self)@.advance(event, on, reason),
    {
        match event {
            Event::Completed => {
                self.stage = on;
            },
            Event::Failed => {
                self.abandon(reason);
            },
            _ => {
                self.abandon(Failure::Fault);
            },
        }
    }

    fn poll(&mut self, phase: PollPhase, event: Event)
        requires
            poll_phase(old(self)@.stage) == Some(phase),
        ensures
            final(self)@ == old(self)@.next(event),
    {
        let meaning: Option<PollEvent> = match event {
            Event::Clock(elapsed_ms) => match phase {
                PollPhase::Clock => Some(PollEvent::Clock { elapsed_ms }),
                _ => None,
            },
            Event::Completed => match phase {
                PollPhase::Probe => Some(PollEvent::Connected),
                PollPhase::Sleep => Some(PollEvent::Slept),
                _ => None,
            },
            Event::Failed => match phase {
                PollPhase::Probe => Some(PollEvent::Refused),
                _ => None,
            },
            _ => None,
        };
        assert(meaning == poll_event(phase, event));
        match meaning {
            Some(e) => {
                let mut poller = Poller { deadline_ms: self.deadline_ms, phase };
                poller.step(e);
                match poller.phase {
                    PollPhase::Clock => {
                        self.stage = Stage::Clock;
                    },
                    PollPhase::Probe => {
                        self.stage = Stage::Probe;
                    },
                    PollPhase::Sleep => {
                        self.stage = Stage::Sleep;
                    },
                    PollPhase::Done { ready } => {
                        if ready {
                            self.stage = Stage::Session;
                        } else {
                            self.abandon(Failure::Timeout);
                        }
                    },
                }
            },
            None => {
                self.abandon(Failure::Fault);
            },
        }
    }

    /// Takes in the result of the action last asked for and says what to do
    /// next.
    pub fn step(&mut self, event: Event) -> (r: Action)
        ensures
            final(self)@ == old(self)@.next(event),
            r == final(self)@.pending(),
    {
        match self.stage {
            Stage::Port => match event {
                Event::Port(port) => {
                    self.port = port;
                    self.stage = Stage::Spawn;
                },
                Event::Failed => {
                    self.abandon(Failure::Process);
                },
                _ => {
                    self.abandon(Failure::Fault);
                },
            },
            Stage::Spawn => {
                self.proceed(event, Stage::Clock, Failure::Process);
            },
            Stage::Clock => {
                self.poll(PollPhase::Clock, event);
            },
            Stage::Probe => {
                self.poll(PollPhase::Probe, event);
            },
            Stage::Sleep => {
                self.poll(PollPhase::Sleep, event);
            },
            Stage::Session => {
                self.proceed(event, Stage::Navigate, Failure::Protocol);
            },
            Stage::Navigate => {
                self.proceed(event, Stage::Url, Failure::Protocol);
            },
            Stage::Url => match event {
                Event::Url(url) => {
                    if url == self.expected {
                        self.stage = Stage::Screenshot;
                    } else {
                        self.abandon(Failure::Mismatch);
                    }
                },
                Event::Failed => {
                    self.abandon(Failure::Protocol);
                },
                _ => {
                    self.abandon(Failure::Fault);
                },
            },
            Stage::Screenshot => match event {
                Event::Picture(bytes) => {
                    self.candidate = Some(bytes);
                    self.stage = Stage::Kill;
                },
                Event::Failed => {
                    self.abandon(Failure::Protocol);
                },
                _ => {
                    self.abandon(Failure::Fault);
                },
            },
            Stage::Kill => {
                match event {
                    Event::Completed => {},
                    _ => {
                        self.failure = Some(Failure::Process);
                    },
                }
                self.stage = Stage::Finished;
            },
            Stage::Finished => {},
        }
        self.action()
    }

    /// The stage that the task is in.
    pub fn stage(&self) -> (r: Stage)
        ensures
            r == self@.stage,
    {
        self.stage
    }

    /// The endpoint that the session is sent to.
    pub fn endpoint(&self) -> (r: &str)
        ensures
            r@ == self@.endpoint,
    {
        self.endpoint.as_str()
    }

    /// The URL that the session has to land on.
    pub fn expected(&self) -> (r: &str)
        ensures
            r@ == self@.expected,
    {
        self.expected.as_str()
    }

    /// The outcome once the task is over, `None` before.
    pub fn outcome(&self) -> (r: Option<Outcome>)
        ensures
            r == self@.outcome(),
    {
        match self.stage {
            Stage::Finished => Some(
                match self.failure {
                    Some(f) => Outcome::Failed(f),
                    None => Outcome::Success,
                },
            ),
            _ => None,
        }
    }

    /// The screenshot that was captured, held as the candidate picture.
    pub fn candidate(&self) -> (r: Option<&Vec<u8>>)
        ensures
            match r {
                Some(bytes) => self@.candidate == Some(bytes@),
                None => self@.candidate.is_none(),
            },
    {
        self.candidate.as_ref()
    }
}

/// The driver process is terminated exactly once where it was started, and
/// never where it was not: whatever is reported to a fresh task, a task that
/// is over has asked for as many terminations as drivers were started, at
/// most one; a task whose driver runs has asked for none yet, and still
/// owes one.
pub proof fn law_driver_terminated_once(endpoint: Seq<char>, expected: Seq<char>, events: Seq<Event>)
    ensures
        ({
            let t = TaskView::fresh(endpoint, expected);
            let s = t.run(events);
            &&& t.spawns(events) <= 1
            &&& t.kills(events) <= t.spawns(events)
            &&& s.stage == Stage::Finished ==> t.kills(events) == t.spawns(events)
            &&& s.stage == Stage::Kill ==> t.kills(events) == 0 && t.spawns(events) == 1
            &&& s.live() ==> t.spawns(events) == 1
            &&& !s.live() && s.stage != Stage::Finished ==> t.spawns(events) == 0
            &&& s.live() && s.stage != Stage::Kill ==> t.kills(events) == 0
        }),
    decreases events.len(),
{
    if events.len() > 0 {
        law_driver_terminated_once(endpoint, expected, events.drop_last());
    }
}

/// A session is opened only once readiness is confirmed: the one way into
/// the session stage is a probe that connected.
pub proof fn law_session_needs_readiness(t: TaskView, event: Event)
    ensures
        t.next(event).stage == Stage::Session <==> t.stage == Stage::Probe && event is Completed,
        t.next(event).pending() is OpenSession <==> t.stage == Stage::Probe && event is Completed,
{
}

/// A driver that is not ready at the deadline is terminated at once, with no
/// session attempted, and the task reports the timeout.
pub proof fn law_timeout_goes_to_cleanup(t: TaskView, elapsed_ms: u64)
    requires
        t.stage == Stage::Clock,
    ensures
        elapsed_ms >= t.deadline_ms ==> t.next(Event::Clock(elapsed_ms)).pending()
            == Action::KillDriver && t.next(Event::Clock(elapsed_ms)).next(
            Event::Completed,
        ).outcome() == Some(Outcome::Failed(Failure::Timeout)),
        elapsed_ms < t.deadline_ms ==> t.next(Event::Clock(elapsed_ms)).pending() == (Action::Probe {
            port: t.port,
        }),
{
}

/// The URL is held against the expected one exactly: an equal URL leads on
/// to the screenshot, any other to termination and to the mismatch as the
/// task's outcome.
pub proof fn law_url_decides(t: TaskView, url: String)
    requires
        t.stage == Stage::Url,
    ensures
        url@ == t.expected ==> t.next(Event::Url(url)).pending() == Action::Screenshot,
        url@ != t.expected ==> t.next(Event::Url(url)).pending() == Action::KillDriver && t.next(
            Event::Url(url),
        ).next(Event::Completed).outcome() == Some(Outcome::Failed(Failure::Mismatch)),
{
}

/// A failed termination is never swallowed: the task then reports a
/// process failure, whatever went before.
pub proof fn law_kill_failure_is_reported(t: TaskView, event: Event)
    requires
        t.stage == Stage::Kill,
    ensures
        event is Completed ==> t.next(event).outcome() == Some(Outcome::of(t.failure)),
        !(event is Completed) ==> t.next(event).outcome() == Some(
            Outcome::Failed(Failure::Process),
        ),
{
}

/// A task that is over stays as it is, whatever is reported to it.
pub proof fn law_finished_is_final(t: TaskView, events: Seq<Event>)
    requires
        t.stage == Stage::Finished,
    ensures
        t.run(events) == t,
    decreases events.len(),
{
    if events.len() > 0 {
        law_finished_is_final(t, events.drop_last());
    }
}

} // verus!

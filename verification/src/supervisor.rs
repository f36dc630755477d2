//! Supervision of the consumer: when a session is restarted and when the
//! pipeline stops.
//!
//! The consumer runs in sessions. A session that ends is followed by another
//! one after a delay, unless a shutdown was requested: then the session in
//! flight is left to drain and no further one is started.

use vstd::prelude::*;

verus! {

/// Milliseconds to wait after a session whose stream ended cleanly.
pub const CLEAN_RESTART_DELAY_MS: u64 = 1_000;

/// Milliseconds to wait after a session that ended with an error.
pub const ERROR_RESTART_DELAY_MS: u64 = 5_000;

/// Where the pipeline stands.
#[derive(Clone, Copy, Debug, PartialEq, Eq, Structural)]
pub enum Phase {
    /// A session is consuming.
    Running,
    /// The last session has ended and the delay before the next one runs.
    Waiting,
    /// A shutdown was requested; the session in flight is finishing.
    Draining,
    /// The pipeline has stopped for good.
    Stopped,
}

/// How a session ended.
#[derive(Clone, Copy, Debug, PartialEq, Eq, Structural)]
pub enum SessionEnd {
    /// The stream of records ended.
    Clean,
    /// The connection to the broker failed.
    Failed,
}

/// What the stream of a session handed over.
#[derive(Clone, Copy, Debug, PartialEq, Eq, Structural)]
pub enum StreamItem {
    /// A record, whatever it holds.
    Record,
    /// An error of the connection to the broker.
    BrokerError,
    /// Nothing more: the stream is over.
    End,
}

/// What a session does with what its stream handed over.
#[derive(Clone, Copy, Debug, PartialEq, Eq, Structural)]
pub enum StreamStep {
    /// Work on the record and go on taking records.
    Process,
    /// End the session, as clean or as failed.
    EndSession(SessionEnd),
}

/// What a session does with `item`: a record is worked on, whatever becomes
/// of it; an error of the connection ends the session as failed; the end of
/// the stream ends it as clean.
pub open spec fn step_on(item: StreamItem) -> StreamStep {
    match item {
        StreamItem::Record => StreamStep::Process,
        StreamItem::BrokerError => StreamStep::EndSession(SessionEnd::Failed),
        StreamItem::End => StreamStep::EndSession(SessionEnd::Clean),
    }
}

/// Decides what a session does with what its stream handed over. Only the
/// connection ends a session: what happens to a record stays with the record.
pub fn stream_step(item: StreamItem) -> (step: StreamStep)
    ensures
        step == step_on(item),
{
    match item {
        StreamItem::Record => StreamStep::Process,
        StreamItem::BrokerError => StreamStep::EndSession(SessionEnd::Failed),
        StreamItem::End => StreamStep::EndSession(SessionEnd::Clean),
    }
}

/// What the supervisor is told.
#[derive(Clone, Copy, Debug, PartialEq, Eq, Structural)]
pub enum Event {
    /// The session in flight has ended.
    SessionEnded(SessionEnd),
    /// The delay before the next session is over.
    DelayElapsed,
    /// The process was asked to terminate.
    ShutdownRequested,
}

/// What the driver of the supervisor has to do.
#[derive(Clone, Copy, Debug, PartialEq, Eq, Structural)]
pub enum Directive {
    /// Start a session.
    StartSession,
    /// Wait this many milliseconds, then report `DelayElapsed`.
    Wait(u64),
    /// Take no further records, and report the end of the session.
    Drain,
    /// Leave the loop: the pipeline is over.
    Exit,
    /// Nothing changes.
    Continue,
}

/// Delay before the session that follows one that ended as `end`.
pub open spec fn restart_delay(end: SessionEnd) -> u64 {
    match end {
        SessionEnd::Clean => CLEAN_RESTART_DELAY_MS,
        SessionEnd::Failed => ERROR_RESTART_DELAY_MS,
    }
}

/// The phase that follows `phase` on `event`.
pub open spec fn next_phase(phase: Phase, event: Event) -> Phase {
    match (phase, event) {
        (Phase::Running, Event::SessionEnded(_)) => Phase::Waiting,
        (Phase::Running, Event::ShutdownRequested) => Phase::Draining,
        (Phase::Waiting, Event::DelayElapsed) => Phase::Running,
        (Phase::Waiting, Event::ShutdownRequested) => Phase::Stopped,
        (Phase::Draining, Event::SessionEnded(_)) => Phase::Stopped,
        _ => phase,
    }
}

/// What the driver has to do when `event` arrives in `phase`.
pub open spec fn directive_for(phase: Phase, event: Event) -> Directive {
    match (phase, event) {
        (Phase::Running, Event::SessionEnded(end)) => Directive::Wait(restart_delay(end)),
        (Phase::Running, Event::ShutdownRequested) => Directive::Drain,
        (Phase::Waiting, Event::DelayElapsed) => Directive::StartSession,
        (Phase::Waiting, Event::ShutdownRequested) => Directive::Exit,
        (Phase::Draining, Event::SessionEnded(_)) => Directive::Exit,
        (Phase::Stopped, _) => Directive::Exit,
        _ => Directive::Continue,
    }
}

/// Whether a shutdown has taken effect in `phase`.
pub open spec fn shutting_down(phase: Phase) -> bool {
    phase == Phase::Draining || phase == Phase::Stopped
}

/// The phase reached from `phase` after all of `events`, in order.
pub open spec fn phase_after(phase: Phase, events: Seq<Event>) -> Phase
    decreases events.len(),
{
    if events.len() == 0 {
        phase
    } else {
        next_phase(phase_after(phase, events.drop_last()), events.last())
    }
}

/// Restart loop of the consumer with its cancellation.
#[derive(Clone, Copy, Debug, PartialEq, Eq)]
pub struct Supervisor {
    phase: Phase,
}

impl Supervisor {
    /// The phase the pipeline is in.
    pub closed spec fn phase(&self) -> Phase {
        self.phase
    }

    /// A supervisor whose first session is about to run.
    pub fn new() -> (supervisor: Supervisor)
        ensures
            supervisor.phase() == Phase::Running,
    {
        Supervisor { phase: Phase::Running }
    }

    /// The phase the pipeline is in.
    pub fn current(&self) -> (phase: Phase)
        ensures
            phase == self.phase(),
    {
        self.phase
    }

    /// Whether the pipeline has stopped for good.
    pub fn is_stopped(&self) -> (stopped: bool)
        ensures
            stopped == (self.phase() == Phase::Stopped),
    {
        match self.phase {
            Phase::Stopped => true,
            _ => false,
        }
    }

    /// Delay before the session that follows one that ended as `end`.
    pub fn delay_after(end: SessionEnd) -> (millis: u64)
        ensures
            millis == restart_delay(end),
    {
        match end {
            SessionEnd::Clean => CLEAN_RESTART_DELAY_MS,
            SessionEnd::Failed => ERROR_RESTART_DELAY_MS,
        }
    }

    /// Takes one event and says what to do. The end of a session is followed
    /// by a wait and a new session; a shutdown request lets the session in
    /// flight drain, or ends the wait, and after it no session is started.
    pub fn handle(&mut self, event: Event) -> (directive: Directive)
        ensures
            final(self).phase() == next_phase(old(self).phase(), event),
            directive == directive_for(old(self).phase(), event),
    {
        match (self.phase, event) {
            (Phase::Running, Event::SessionEnded(end)) => {
                self.phase = Phase::Waiting;
                Directive::Wait(Self::delay_after(end))
            },
            (Phase::Running, Event::ShutdownRequested) => {
                self.phase = Phase::Draining;
                Directive::Drain
            },
            (Phase::Waiting, Event::DelayElapsed) => {
                self.phase = Phase::Running;
                Directive::StartSession
            },
            (Phase::Waiting, Event::ShutdownRequested) => {
                self.phase = Phase::Stopped;
                Directive::Exit
            },
            (Phase::Draining, Event::SessionEnded(_)) => {
                self.phase = Phase::Stopped;
                Directive::Exit
            },
            (Phase::Stopped, _) => Directive::Exit,
            _ => Directive::Continue,
        }
    }
}

/// Without a shutdown request, a session that ends is followed by a wait of
/// one second after a clean end and of five after a failure, and the end of
/// the wait by a new session.
pub proof fn ended_session_is_restarted(end: SessionEnd)
    ensures
        directive_for(Phase::Running, Event::SessionEnded(end)) == Directive::Wait(
            restart_delay(end),
        ),
        restart_delay(SessionEnd::Clean) == 1_000,
        restart_delay(SessionEnd::Failed) == 5_000,
        directive_for(next_phase(Phase::Running, Event::SessionEnded(end)), Event::DelayElapsed)
            == Directive::StartSession,
        next_phase(next_phase(Phase::Running, Event::SessionEnded(end)), Event::DelayElapsed)
            == Phase::Running,
{
}

/// A lost connection is answered by a restart of the whole session after
/// five seconds, and a record never ends a session.
pub proof fn lost_connection_restarts_session()
    ensures
        step_on(StreamItem::Record) == StreamStep::Process,
        step_on(StreamItem::BrokerError) == StreamStep::EndSession(SessionEnd::Failed),
        directive_for(Phase::Running, Event::SessionEnded(SessionEnd::Failed)) == Directive::Wait(
            5_000,
        ),
{
}

/// Once a shutdown has taken effect it stays in effect, and no event starts
/// a session or a wait for one.
pub proof fn no_restart_after_shutdown(phase: Phase, event: Event)
    requires
        shutting_down(phase),
    ensures
        shutting_down(next_phase(phase, event)),
        directive_for(phase, event) != Directive::StartSession,
        !(directive_for(phase, event) is Wait),
{
}

/// A shutdown request takes effect in every phase: a running pipeline
/// drains, a waiting one stops at once, and one that is draining or stopped
/// stays so. In none does the request start a session or a wait.
pub proof fn shutdown_takes_effect(phase: Phase)
    ensures
        shutting_down(next_phase(phase, Event::ShutdownRequested)),
        phase == Phase::Running ==> directive_for(phase, Event::ShutdownRequested)
            == Directive::Drain,
        phase == Phase::Waiting ==> directive_for(phase, Event::ShutdownRequested)
            == Directive::Exit,
        directive_for(phase, Event::ShutdownRequested) != Directive::StartSession,
        !(directive_for(phase, Event::ShutdownRequested) is Wait),
{
}

/// After a shutdown request, whatever events follow, the pipeline is
/// draining or stopped.
pub proof fn shutdown_is_final(phase: Phase, events: Seq<Event>)
    ensures
        shutting_down(phase_after(next_phase(phase, Event::ShutdownRequested), events)),
    decreases events.len(),
{
    if events.len() > 0 {
        shutdown_is_final(phase, events.drop_last());
    }
}

/// A draining pipeline stops with the end of the session in flight: the
/// shutdown takes no longer than that session takes to drain.
pub proof fn drain_ends_with_session(end: SessionEnd)
    ensures
        next_phase(Phase::Draining, Event::SessionEnded(end)) == Phase::Stopped,
        directive_for(Phase::Draining, Event::SessionEnded(end)) == Directive::Exit,
{
}

} // verus!

//! The attach session: the inbound dispatcher's state machine and the
//! orchestrator's guarantee that the terminal is restored exactly once.
//!
//! The caller runs the loop: it feeds each event to `Session::dispatch`,
//! carries out the returned action, and calls `Session::finish` once the
//! session has stopped running.
use vstd::prelude::*;
use crate::envelope::{decode, envelope_of, OutputKind, OutputRecord};
use crate::relay::{Frame, FrameView, OutboundMessage};
use crate::terminal::TerminalGuard;

verus! {

/// Why a session failed.
#[derive(Clone, Copy, Debug, PartialEq, Eq, Structural)]
pub enum AttachError {
    /// Reading or writing the local terminal configuration failed.
    TerminalControl,
    /// The relay could not write a frame.
    TransportWrite,
    /// A binary frame did not hold a well-formed output record.
    Decode,
    /// The outbound queue no longer accepted the answer to a probe.
    QueueClosed,
    /// Writing to the local output streams failed.
    LocalOutput,
}

#[derive(Clone, Copy, Debug, PartialEq, Eq, Structural)]
pub enum Phase {
    Running,
    Closed,
    Failed(AttachError),
}

/// What the session loop hears of.
#[derive(Clone, Debug)]
pub enum Event {
    /// A frame from the transport's receive half.
    Frame(Frame),
    /// The receive half reported an error or a disconnect.
    ReadError,
    /// The receive half ended.
    EndOfStream,
    /// A pong could not be queued.
    PongRejected,
    /// Writing to a local output stream failed.
    OutputFailed,
    /// The relay could not write to the transport.
    WriteFailed,
    /// Applying a terminal configuration failed.
    TerminalFailed,
}

pub enum EventView {
    Frame(FrameView),
    ReadError,
    EndOfStream,
    PongRejected,
    OutputFailed,
    WriteFailed,
    TerminalFailed,
}

impl View for Event {
    type V = EventView;

    open spec fn view(&self) -> EventView {
        match self {
            Event::Frame(f) => EventView::Frame(f@),
            Event::ReadError => EventView::ReadError,
            Event::EndOfStream => EventView::EndOfStream,
            Event::PongRejected => EventView::PongRejected,
            Event::OutputFailed => EventView::OutputFailed,
            Event::WriteFailed => EventView::WriteFailed,
            Event::TerminalFailed => EventView::TerminalFailed,
        }
    }
}

/// What the caller does for an event.
#[derive(Clone, Debug)]
pub enum Action {
    Nothing,
    /// Write and flush to the local standard output.
    WriteStdout(String),
    /// Write and flush to the local standard error.
    WriteStderr(String),
    /// Queue this message for the relay.
    Queue(OutboundMessage),
}

pub enum ActionView {
    Nothing,
    WriteStdout(Seq<char>),
    WriteStderr(Seq<char>),
    QueuePong(Seq<u8>),
    QueueOther,
}

impl View for Action {
    type V = ActionView;

    open spec fn view(&self) -> ActionView {
        match self {
            Action::Nothing => ActionView::Nothing,
            Action::WriteStdout(s) => ActionView::WriteStdout(s@),
            Action::WriteStderr(s) => ActionView::WriteStderr(s@),
            Action::Queue(OutboundMessage::Pong(p)) => ActionView::QueuePong(p@),
            Action::Queue(_) => ActionView::QueueOther,
        }
    }
}

/// Where a record's data goes: console output shares standard output, and
/// records of other kinds are dropped.
pub open spec fn route_of(kind: OutputKind, data: Seq<char>) -> ActionView {
    match kind {
        OutputKind::StdOut => ActionView::WriteStdout(data),
        OutputKind::Console => ActionView::WriteStdout(data),
        OutputKind::StdErr => ActionView::WriteStderr(data),
        OutputKind::Other => ActionView::Nothing,
    }
}

/// One step of the session: the next phase and the action for `e`. Only a
/// running session reacts to events.
pub open spec fn step(p: Phase, e: EventView) -> (Phase, ActionView) {
    if !(p is Running) {
        (p, ActionView::Nothing)
    } else {
        match e {
            EventView::Frame(FrameView::Binary(b)) => match envelope_of(b) {
                Some((k, d)) => (Phase::Running, route_of(k, d)),
                None => (Phase::Failed(AttachError::Decode), ActionView::Nothing),
            },
            EventView::Frame(FrameView::Ping(b)) => (Phase::Running, ActionView::QueuePong(b)),
            EventView::Frame(FrameView::Close) => (Phase::Closed, ActionView::Nothing),
            EventView::Frame(_) => (Phase::Running, ActionView::Nothing),
            EventView::ReadError => (Phase::Closed, ActionView::Nothing),
            EventView::EndOfStream => (Phase::Closed, ActionView::Nothing),
            EventView::PongRejected => (Phase::Failed(AttachError::QueueClosed), ActionView::Nothing),
            EventView::OutputFailed => (Phase::Failed(AttachError::LocalOutput), ActionView::Nothing),
            EventView::WriteFailed => (Phase::Failed(AttachError::TransportWrite), ActionView::Nothing),
            EventView::TerminalFailed => (
                Phase::Failed(AttachError::TerminalControl),
                ActionView::Nothing,
            ),
        }
    }
}

/// The phase after the events `evs`, in order, starting from `p`.
pub open spec fn run(p: Phase, evs: Seq<EventView>) -> Phase
    decreases evs.len(),
{
    if evs.len() == 0 {
        p
    } else {
        run(step(p, evs[0]).0, evs.drop_first())
    }
}

/// What a session that ended in phase `p` returns to its caller.
pub open spec fn outcome_of(p: Phase) -> Result<(), AttachError> {
    match p {
        Phase::Failed(e) => Err(e),
        _ => Ok(()),
    }
}

/// The state of a session as the laws see it.
pub struct SessionView {
    pub phase: Phase,
    pub released: bool,
    /// How many times the captured configuration was handed back.
    pub restores: nat,
}

pub open spec fn started() -> SessionView {
    SessionView { phase: Phase::Running, released: false, restores: 0 }
}

pub open spec fn after_events(v: SessionView, evs: Seq<EventView>) -> SessionView {
    SessionView { phase: run(v.phase, evs), ..v }
}

/// The state after `finish`, and what the session returns.
pub open spec fn finish_of(v: SessionView) -> (SessionView, Result<(), AttachError>) {
    if v.released {
        (v, outcome_of(v.phase))
    } else {
        (SessionView { released: true, restores: v.restores + 1, ..v }, outcome_of(v.phase))
    }
}

/// Routes a decoded record to its local stream.
pub fn route(rec: OutputRecord) -> (r: Action)
    ensures
        r@ == route_of(rec.kind, rec.data@),
{
    match rec.kind {
        OutputKind::StdOut => Action::WriteStdout(rec.data),
        OutputKind::Console => Action::WriteStdout(rec.data),
        OutputKind::StdErr => Action::WriteStderr(rec.data),
        OutputKind::Other => Action::Nothing,
    }
}

/// One attach session over a terminal whose configuration has type `S`.
pub struct Session<S> {
    phase: Phase,
    guard: TerminalGuard<S>,
    restores: Ghost<nat>,
}

impl<S: Copy> Session<S> {
    pub closed spec fn spec_view(&self) -> SessionView {
        SessionView { phase: self.phase, released: self.guard.is_released(), restores: self.restores@ }
    }

    pub closed spec fn snapshot(&self) -> S {
        self.guard.snapshot()
    }

    /// Starts a session on a terminal whose configuration is `current`; the
    /// caller then applies raw mode.
    pub fn start(current: S) -> (r: Session<S>)
        ensures
            r.spec_view() == started(),
            r.snapshot() == current,
    {
        Session { phase: Phase::Running, guard: TerminalGuard::acquire(current), restores: Ghost(0) }
    }

    pub fn phase(&self) -> (r: Phase)
        ensures
            r == self.spec_view().phase,
    {
        self.phase
    }

    pub fn is_running(&self) -> (r: bool)
        ensures
            r == (self.spec_view().phase is Running),
    {
        self.phase == Phase::Running
    }

    /// Reacts to one event and gives the action to carry out.
    pub fn dispatch(&mut self, e: Event) -> (r: Action)
        ensures
            (final(self).spec_view().phase, r@) == step(old(self).spec_view().phase, e@),
            final(self).spec_view() == (SessionView {
                phase: final(self).spec_view().phase,
                ..old(self).spec_view()
            }),
            final(self).snapshot() == old(self).snapshot(),
    {
        if self.phase != Phase::Running {
            return Action::Nothing;
        }
        match e {
            Event::Frame(Frame::Binary(b)) => match decode(b.as_slice()) {
                Ok(rec) => route(rec),
                Err(_) => {
                    self.phase = Phase::Failed(AttachError::Decode);
                    Action::Nothing
                },
            },
            Event::Frame(Frame::Ping(p)) => Action::Queue(OutboundMessage::Pong(p)),
            Event::Frame(Frame::Close) => {
                self.phase = Phase::Closed;
                Action::Nothing
            },
            Event::Frame(_) => Action::Nothing,
            Event::ReadError => {
                self.phase = Phase::Closed;
                Action::Nothing
            },
            Event::EndOfStream => {
                self.phase = Phase::Closed;
                Action::Nothing
            },
            Event::PongRejected => {
                self.phase = Phase::Failed(AttachError::QueueClosed);
                Action::Nothing
            },
            Event::OutputFailed => {
                self.phase = Phase::Failed(AttachError::LocalOutput);
                Action::Nothing
            },
            Event::WriteFailed => {
                self.phase = Phase::Failed(AttachError::TransportWrite);
                Action::Nothing
            },
            Event::TerminalFailed => {
                self.phase = Phase::Failed(AttachError::TerminalControl);
                Action::Nothing
            },
        }
    }

    /// Ends the session: gives the captured configuration to reapply (only
    /// on the first call) and the result for the caller.
    pub fn finish(&mut self) -> (r: (Result<(), AttachError>, Option<S>))
        ensures
            (final(self).spec_view(), r.0) == finish_of(old(self).spec_view()),
            !old(self).spec_view().released ==> r.1 == Some(old(self).snapshot()),
            old(self).spec_view().released ==> r.1 is None,
            final(self).snapshot() == old(self).snapshot(),
    {
        let restore = self.guard.release();
        if restore.is_some() {
            self.restores = Ghost(self.restores@ + 1);
        }
        let res = match self.phase {
            Phase::Failed(e) => Err(e),
            _ => Ok(()),
        };
        (res, restore)
    }
}

/// The result once the terminal was (or was not) restored: a failed
/// restoration turns success into a terminal-control error and leaves an
/// earlier error as it was.
pub fn with_restore(outcome: Result<(), AttachError>, restored: bool) -> (r: Result<(), AttachError>)
    ensures
        outcome is Err ==> r == outcome,
        outcome is Ok ==> r == (if restored {
            Ok(())
        } else {
            Err(AttachError::TerminalControl)
        }),
{
    match outcome {
        Err(e) => Err(e),
        Ok(()) => if restored {
            Ok(())
        } else {
            Err(AttachError::TerminalControl)
        },
    }
}

/// A frame that does not fail the session: anything but a binary frame
/// holding a malformed record.
pub open spec fn well_formed_frame(f: FrameView) -> bool {
    match f {
        FrameView::Binary(b) => envelope_of(b) is Some,
        _ => true,
    }
}

pub open spec fn frame_events(frames: Seq<FrameView>) -> Seq<EventView> {
    frames.map_values(|f: FrameView| EventView::Frame(f))
}

proof fn lemma_failed_stays(e: AttachError, evs: Seq<EventView>)
    ensures
        run(Phase::Failed(e), evs) == Phase::Failed(e),
    decreases evs.len(),
{
    if evs.len() > 0 {
        lemma_failed_stays(e, evs.drop_first());
    }
}

proof fn lemma_well_formed_then_end(p: Phase, frames: Seq<FrameView>)
    requires
        p is Running || p is Closed,
        forall|i: int| 0 <= i < frames.len() ==> well_formed_frame(#[trigger] frames[i]),
    ensures
        run(p, frame_events(frames).push(EventView::EndOfStream)) == Phase::Closed,
    decreases frames.len(),
{
    let evs = frame_events(frames).push(EventView::EndOfStream);
    if frames.len() == 0 {
        assert(evs.drop_first() =~= Seq::<EventView>::empty());
        assert(run(step(p, evs[0]).0, evs.drop_first()) == step(p, evs[0]).0);
    } else {
        assert(evs[0] == EventView::Frame(frames[0]));
        assert(well_formed_frame(frames[0]));
        let rest = frames.drop_first();
        assert(evs.drop_first() =~= frame_events(rest).push(EventView::EndOfStream));
        assert forall|i: int| 0 <= i < rest.len() implies well_formed_frame(#[trigger] rest[i]) by {
            assert(rest[i] == frames[i + 1]);
        }
        lemma_well_formed_then_end(step(p, evs[0]).0, rest);
    }
}

/// When the receive half yields well-formed frames and then ends without an
/// error, the session returns success and the captured terminal
/// configuration is handed back exactly once.
pub proof fn lemma_clean_end(frames: Seq<FrameView>)
    requires
        forall|i: int| 0 <= i < frames.len() ==> well_formed_frame(#[trigger] frames[i]),
    ensures
        ({
            let (v, res) = finish_of(
                after_events(started(), frame_events(frames).push(EventView::EndOfStream)),
            );
            res == Ok::<(), AttachError>(()) && v.released && v.restores == 1
        }),
{
    lemma_well_formed_then_end(Phase::Running, frames);
}

/// When the first write to the transport fails, the session returns a
/// transport-write error whatever happens next, and the captured terminal
/// configuration is still handed back exactly once.
pub proof fn lemma_first_write_failure(rest: Seq<EventView>)
    ensures
        ({
            let (v, res) = finish_of(
                after_events(started(), seq![EventView::WriteFailed] + rest),
            );
            res == Err::<(), AttachError>(AttachError::TransportWrite) && v.released
                && v.restores == 1
        }),
{
    let evs = seq![EventView::WriteFailed] + rest;
    assert(evs.drop_first() =~= rest);
    lemma_failed_stays(AttachError::TransportWrite, rest);
}

/// A ping with payload `p` leads to exactly one queued pong that carries `p`,
/// and leaves a running session running.
pub proof fn lemma_ping_answered(p: Seq<u8>)
    ensures
        step(Phase::Running, EventView::Frame(FrameView::Ping(p))) == (
            Phase::Running,
            ActionView::QueuePong(p),
        ),
{
}

} // verus!

//! One poll of an operation under a task context.
//!
//! A poll tries the operation; if it would block, it asks the session which
//! directions it is blocked on and polls the socket for exactly that
//! readiness.  Once the socket is ready the operation is tried again, and
//! once more if the session still needs I/O.  A poll never loops: it ends
//! with the operation's result, with a readiness error, or pending with a way
//! to be woken again.
use vstd::prelude::*;
use crate::blocking::{
    Directions, OpOutcome, StreamKind, io_attempt_outcome, io_error_kind_would_block_of, session_block_directions,
};
use crate::pause::Pause;
use crate::x_with::pause_millis;

verus! {

/// How long a TCP poll sleeps before waking its task when the session is
/// blocked on neither direction and the caller gave no pause, in milliseconds.
pub const TCP_IDLE_WAKE_MILLIS: u64 = 1;

/// How long a Unix poll sleeps before waking its task when the session is
/// blocked on neither direction, in milliseconds.
pub const UNIX_IDLE_WAKE_MILLIS: u64 = 50;

/// Where a poll stands between two outside steps.
#[derive(Clone, Copy, Debug, PartialEq, Eq, Structural)]
pub enum PollPhase {
    /// The operation is being tried for the first time.
    FirstAttempt,
    /// The session is being asked which directions it is blocked on.
    AwaitDirections,
    /// The socket is being polled for writability; for readability next if set.
    PollWritable { then_readable: bool },
    /// The socket is being polled for readability.
    PollReadable,
    /// The operation is being tried again now that the socket is ready.
    Retry,
    /// The session is asked again which directions it is blocked on.
    Recheck,
    /// The operation is being tried a last time.
    LastAttempt,
    /// The poll has returned.
    Done,
}

/// What polling the socket for readiness gave.
#[derive(Clone, Copy, Debug, PartialEq, Eq, Structural)]
pub enum Readiness {
    /// The socket is ready.
    Ready,
    /// Polling failed with an I/O error.
    Failed,
    /// The socket is not ready yet; the socket has registered the task's waker.
    Pending,
}

/// What the outside world reports back to a poll.
#[derive(Clone, Copy, Debug, PartialEq, Eq, Structural)]
pub enum PollEvent {
    /// An attempt of the operation ended so.
    Op(OpOutcome),
    /// The session is blocked on these directions.
    Directions(Directions),
    /// Polling the socket for readiness gave this.
    Polled(Readiness),
}

/// How a pending poll's task gets woken again.
#[derive(Clone, Copy, Debug, PartialEq, Eq, Structural)]
pub enum Wake {
    /// A helper task sleeps this many milliseconds, then wakes the task.
    AfterSleep(u64),
    /// A helper task yields once to the runtime, then wakes the task.
    AfterYield,
    /// The socket wakes the task once it is ready.
    OnReadiness,
}

/// What a poll asks the outside world to do next.
#[derive(Clone, Copy, Debug, PartialEq, Eq, Structural)]
pub enum PollAction {
    /// Try the operation and report how it ended.
    RunOp,
    /// Ask the session which directions it is blocked on.
    QueryDirections,
    /// Poll the socket for readability.
    PollReadReady,
    /// Poll the socket for writability.
    PollWriteReady,
    /// Return ready with the last attempt's result, value or error.
    ReadyWithOpResult,
    /// Return ready with the I/O error of the failed readiness poll.
    ReadyWithPollError,
    /// Return pending, arranging for the task to be woken so.
    Pending(Wake),
}

/// The state of one poll.
#[derive(Clone, Copy, Debug, PartialEq, Eq, Structural)]
pub struct PollXWith {
    /// The socket kind; it decides the idle wake-up delay.
    pub kind: StreamKind,
    /// The caller's pause, in the timer's milliseconds.
    pub pause_ms: Option<u64>,
    /// Where the poll stands.
    pub phase: PollPhase,
}

/// Which events a phase waits for: the answer to the action that led there.
pub open spec fn poll_accepts(phase: PollPhase, e: PollEvent) -> bool {
    match phase {
        PollPhase::FirstAttempt | PollPhase::Retry | PollPhase::LastAttempt => e is Op,
        PollPhase::AwaitDirections | PollPhase::Recheck => e is Directions,
        PollPhase::PollWritable { .. } | PollPhase::PollReadable => e is Polled,
        PollPhase::Done => false,
    }
}

/// The delay before a poll wakes its task when the session is blocked on
/// neither direction: a TCP poll takes the caller's pause, or one
/// millisecond without one; a Unix poll always takes fifty milliseconds.
pub open spec fn idle_wake_millis(m: PollXWith) -> u64 {
    match m.kind {
        StreamKind::Tcp => match m.pause_ms {
            Some(ms) => ms,
            None => TCP_IDLE_WAKE_MILLIS,
        },
        StreamKind::Unix => UNIX_IDLE_WAKE_MILLIS,
    }
}

/// The poll's next state and action after event `e`.  Only events that the
/// phase waits for (`poll_accepts`) are ever fed; the others leave the state
/// as it is.
pub open spec fn poll_next(m: PollXWith, e: PollEvent) -> (PollXWith, PollAction) {
    let done = PollXWith { phase: PollPhase::Done, ..m };
    let go = |phase: PollPhase| PollXWith { phase, ..m };
    match (m.phase, e) {
        (PollPhase::FirstAttempt, PollEvent::Op(OpOutcome::WouldBlock)) =>
            (go(PollPhase::AwaitDirections), PollAction::QueryDirections),
        (PollPhase::AwaitDirections, PollEvent::Directions(d)) => match d {
            Directions::Neither => (done, PollAction::Pending(Wake::AfterSleep(idle_wake_millis(m)))),
            Directions::Inbound => (go(PollPhase::PollReadable), PollAction::PollReadReady),
            Directions::Outbound =>
                (go(PollPhase::PollWritable { then_readable: false }), PollAction::PollWriteReady),
            Directions::Both =>
                (go(PollPhase::PollWritable { then_readable: true }), PollAction::PollWriteReady),
        },
        (PollPhase::PollWritable { then_readable }, PollEvent::Polled(Readiness::Ready)) =>
            if then_readable {
                (go(PollPhase::PollReadable), PollAction::PollReadReady)
            } else {
                (go(PollPhase::Retry), PollAction::RunOp)
            },
        (PollPhase::PollReadable, PollEvent::Polled(Readiness::Ready)) =>
            (go(PollPhase::Retry), PollAction::RunOp),
        (_, PollEvent::Polled(Readiness::Failed)) => (done, PollAction::ReadyWithPollError),
        (_, PollEvent::Polled(Readiness::Pending)) => (done, PollAction::Pending(Wake::OnReadiness)),
        (PollPhase::Retry, PollEvent::Op(OpOutcome::WouldBlock)) =>
            (go(PollPhase::Recheck), PollAction::QueryDirections),
        (PollPhase::Recheck, PollEvent::Directions(d)) =>
            if d == Directions::Neither {
                (done, PollAction::Pending(Wake::AfterYield))
            } else {
                (go(PollPhase::LastAttempt), PollAction::RunOp)
            },
        (PollPhase::LastAttempt, PollEvent::Op(OpOutcome::WouldBlock)) =>
            (done, PollAction::Pending(Wake::AfterYield)),
        (_, PollEvent::Op(_)) => (done, PollAction::ReadyWithOpResult),
        _ => (m, PollAction::QueryDirections),
    }
}

impl PollXWith {
    /// A poll of an operation over a socket of `kind`, with the caller's
    /// pause `sleep_dur`.  Its first action is to try the operation.  The
    /// directions the caller expects to block on play no part.
    pub fn new(kind: StreamKind, expected: Directions, sleep_dur: Option<Pause>) -> (m: PollXWith)
        ensures
            m == (PollXWith { kind, pause_ms: pause_millis(sleep_dur), phase: PollPhase::FirstAttempt }),
    {
        let pause_ms = match sleep_dur {
            Some(p) => Some(p.whole_millis()),
            None => None,
        };
        PollXWith { kind, pause_ms, phase: PollPhase::FirstAttempt }
    }

    /// Whether the poll waits for event `e` now.
    pub fn accepts(&self, e: PollEvent) -> (b: bool)
        ensures
            b == poll_accepts(self.phase, e),
    {
        match self.phase {
            PollPhase::FirstAttempt | PollPhase::Retry | PollPhase::LastAttempt => matches!(e, PollEvent::Op(_)),
            PollPhase::AwaitDirections | PollPhase::Recheck => matches!(e, PollEvent::Directions(_)),
            PollPhase::PollWritable { .. } | PollPhase::PollReadable => matches!(e, PollEvent::Polled(_)),
            PollPhase::Done => false,
        }
    }

    /// Moves the poll on by event `e` and returns what to do next.
    pub fn step(&mut self, e: PollEvent) -> (a: PollAction)
        requires
            poll_accepts(old(self).phase, e),
        ensures
            (*final(self), a) == poll_next(*old(self), e),
    {
        let m = *self;
        let done = PollXWith { phase: PollPhase::Done, ..m };
        let (next, a) = match (m.phase, e) {
            (PollPhase::FirstAttempt, PollEvent::Op(OpOutcome::WouldBlock)) =>
                (PollXWith { phase: PollPhase::AwaitDirections, ..m }, PollAction::QueryDirections),
            (PollPhase::AwaitDirections, PollEvent::Directions(d)) => match d {
                Directions::Neither => {
                    let ms = match m.kind {
                        StreamKind::Tcp => match m.pause_ms {
                            Some(ms) => ms,
                            None => TCP_IDLE_WAKE_MILLIS,
                        },
                        StreamKind::Unix => UNIX_IDLE_WAKE_MILLIS,
                    };
                    (done, PollAction::Pending(Wake::AfterSleep(ms)))
                },
                Directions::Inbound => (PollXWith { phase: PollPhase::PollReadable, ..m }, PollAction::PollReadReady),
                Directions::Outbound => (
                    PollXWith { phase: PollPhase::PollWritable { then_readable: false }, ..m },
                    PollAction::PollWriteReady,
                ),
                Directions::Both => (
                    PollXWith { phase: PollPhase::PollWritable { then_readable: true }, ..m },
                    PollAction::PollWriteReady,
                ),
            },
            (PollPhase::PollWritable { then_readable }, PollEvent::Polled(Readiness::Ready)) =>
                if then_readable {
                    (PollXWith { phase: PollPhase::PollReadable, ..m }, PollAction::PollReadReady)
                } else {
                    (PollXWith { phase: PollPhase::Retry, ..m }, PollAction::RunOp)
                },
            (PollPhase::PollReadable, PollEvent::Polled(Readiness::Ready)) =>
                (PollXWith { phase: PollPhase::Retry, ..m }, PollAction::RunOp),
            (_, PollEvent::Polled(Readiness::Failed)) => (done, PollAction::ReadyWithPollError),
            (_, PollEvent::Polled(Readiness::Pending)) => (done, PollAction::Pending(Wake::OnReadiness)),
            (PollPhase::Retry, PollEvent::Op(OpOutcome::WouldBlock)) =>
                (PollXWith { phase: PollPhase::Recheck, ..m }, PollAction::QueryDirections),
            (PollPhase::Recheck, PollEvent::Directions(d)) =>
                if d == Directions::Neither {
                    (done, PollAction::Pending(Wake::AfterYield))
                } else {
                    (PollXWith { phase: PollPhase::LastAttempt, ..m }, PollAction::RunOp)
                },
            (PollPhase::LastAttempt, PollEvent::Op(OpOutcome::WouldBlock)) =>
                (done, PollAction::Pending(Wake::AfterYield)),
            (_, PollEvent::Op(_)) => (done, PollAction::ReadyWithOpResult),
            _ => (m, PollAction::QueryDirections),
        };
        *self = next;
        a
    }

    /// Moves the poll on by the result `r` of an attempt of the operation and
    /// returns how the attempt ended and what to do next.  Any result other
    /// than an error of kind `WouldBlock` ends the poll with that result.
    pub fn on_attempt<R>(&mut self, r: &Result<R, std::io::Error>) -> (res: (OpOutcome, PollAction))
        requires
            poll_accepts(old(self).phase, PollEvent::Op(OpOutcome::Done)),
        ensures
            (r is Ok) <==> res.0 == OpOutcome::Done,
            (r is Err) ==> (res.0 == OpOutcome::WouldBlock <==> io_error_kind_would_block_of(r->Err_0)),
            (*final(self), res.1) == poll_next(*old(self), PollEvent::Op(res.0)),
    {
        let o = io_attempt_outcome(r);
        let a = self.step(PollEvent::Op(o));
        (o, a)
    }

    /// Asks the session `sess` which directions it is blocked on, moves the
    /// poll on by the answer, and returns the answer and what to do next.
    pub fn on_directions(&mut self, sess: &ssh2::Session) -> (res: (Directions, PollAction))
        requires
            poll_accepts(old(self).phase, PollEvent::Directions(Directions::Neither)),
        ensures
            (*final(self), res.1) == poll_next(*old(self), PollEvent::Directions(res.0)),
    {
        let d = session_block_directions(sess);
        let a = self.step(PollEvent::Directions(d));
        (d, a)
    }
}

/// Whether every event of `evs`, fed in order from state `m`, is one the poll
/// waits for at that point.
pub open spec fn poll_runs(m: PollXWith, evs: Seq<PollEvent>) -> bool
    decreases evs.len(),
{
    evs.len() == 0 || (poll_accepts(m.phase, evs[0]) && poll_runs(poll_next(m, evs[0]).0, evs.drop_first()))
}

/// How many attempts of the operation `evs` reports.
pub open spec fn attempts(evs: Seq<PollEvent>) -> nat
    decreases evs.len(),
{
    if evs.len() == 0 {
        0
    } else {
        (if evs[0] is Op { 1nat } else { 0nat }) + attempts(evs.drop_first())
    }
}

/// The most outside steps a phase can still go through before the poll returns.
pub open spec fn steps_left(phase: PollPhase) -> nat {
    match phase {
        PollPhase::FirstAttempt => 7,
        PollPhase::AwaitDirections => 6,
        PollPhase::PollWritable { then_readable } => if then_readable { 5 } else { 4 },
        PollPhase::PollReadable => 4,
        PollPhase::Retry => 3,
        PollPhase::Recheck => 2,
        PollPhase::LastAttempt => 1,
        PollPhase::Done => 0,
    }
}

/// The most attempts of the operation a phase can still make, counting the
/// one it waits on.
pub open spec fn attempts_left(phase: PollPhase) -> nat {
    match phase {
        PollPhase::FirstAttempt => 3,
        PollPhase::AwaitDirections | PollPhase::PollWritable { .. } | PollPhase::PollReadable | PollPhase::Retry => 2,
        PollPhase::Recheck | PollPhase::LastAttempt => 1,
        PollPhase::Done => 0,
    }
}

proof fn lemma_poll_bounded_from(m: PollXWith, evs: Seq<PollEvent>)
    requires
        poll_runs(m, evs),
    ensures
        evs.len() <= steps_left(m.phase),
        attempts(evs) <= attempts_left(m.phase),
    decreases evs.len(),
{
    if evs.len() > 0 {
        lemma_poll_bounded_from(poll_next(m, evs[0]).0, evs.drop_first());
    }
}

/// A poll never spins: started afresh, it returns after at most seven
/// outside steps, of which at most three are attempts of the operation.
pub proof fn lemma_poll_returns_within_seven_steps(m: PollXWith, evs: Seq<PollEvent>)
    requires
        m.phase == PollPhase::FirstAttempt,
        poll_runs(m, evs),
    ensures
        evs.len() <= 7,
        attempts(evs) <= 3,
{
    lemma_poll_bounded_from(m, evs);
}

/// Every step ends the poll or moves it on: exactly the returning actions
/// end it, and the socket kind and the pause never change.
pub proof fn lemma_poll_returns_exactly_on_answers(m: PollXWith, e: PollEvent)
    requires
        poll_accepts(m.phase, e),
    ensures
        poll_next(m, e).0.kind == m.kind,
        poll_next(m, e).0.pause_ms == m.pause_ms,
        (poll_next(m, e).0.phase == PollPhase::Done) <==> (poll_next(m, e).1 is ReadyWithOpResult
            || poll_next(m, e).1 is ReadyWithPollError || poll_next(m, e).1 is Pending),
{
}

/// A pending poll relies on the socket to wake its task exactly when the
/// socket's own readiness poll was pending; in every other pending case the
/// poll arranges the wake-up itself.
pub proof fn lemma_pending_always_has_a_waker(m: PollXWith, e: PollEvent)
    requires
        poll_accepts(m.phase, e),
    ensures
        (poll_next(m, e).1 == PollAction::Pending(Wake::OnReadiness)) <==> e == PollEvent::Polled(Readiness::Pending),
{
}

/// When the session is blocked on neither direction there is no socket
/// readiness to wait for, so the poll returns pending and wakes itself: after
/// the idle delay the first time, after a yield when it asks again.
pub proof fn lemma_idle_session_wakes_itself(m: PollXWith)
    requires
        m.phase == PollPhase::AwaitDirections || m.phase == PollPhase::Recheck,
    ensures
        poll_next(m, PollEvent::Directions(Directions::Neither)).0.phase == PollPhase::Done,
        m.phase == PollPhase::AwaitDirections ==> poll_next(m, PollEvent::Directions(Directions::Neither)).1
            == PollAction::Pending(Wake::AfterSleep(idle_wake_millis(m))),
        m.phase == PollPhase::Recheck ==> poll_next(m, PollEvent::Directions(Directions::Neither)).1
            == PollAction::Pending(Wake::AfterYield),
{
}

/// An attempt that does not block ends the poll with its result at once, and
/// only such an attempt does; only a failed readiness poll ends it with an
/// I/O error.
pub proof fn lemma_poll_reports_results_at_once(m: PollXWith, e: PollEvent)
    requires
        poll_accepts(m.phase, e),
    ensures
        (poll_next(m, e).1 == PollAction::ReadyWithOpResult) <==> (e == PollEvent::Op(OpOutcome::Done)
            || e == PollEvent::Op(OpOutcome::Failed)),
        (poll_next(m, e).1 == PollAction::ReadyWithPollError) <==> e == PollEvent::Polled(Readiness::Failed),
{
}

/// The poll waits for the readiness the session reports: readability for
/// inbound, writability for outbound, and writability then readability for
/// both.
pub proof fn lemma_polls_reported_directions(m: PollXWith)
    requires
        m.phase == PollPhase::AwaitDirections,
    ensures
        poll_next(m, PollEvent::Directions(Directions::Inbound)).1 == PollAction::PollReadReady,
        poll_next(m, PollEvent::Directions(Directions::Outbound)).1 == PollAction::PollWriteReady,
        poll_next(m, PollEvent::Directions(Directions::Both)).1 == PollAction::PollWriteReady,
        ({
            let n = poll_next(m, PollEvent::Directions(Directions::Both)).0;
            poll_next(n, PollEvent::Polled(Readiness::Ready)).1 == PollAction::PollReadReady
        }),
        ({
            let n = poll_next(m, PollEvent::Directions(Directions::Outbound)).0;
            poll_next(n, PollEvent::Polled(Readiness::Ready)).1 == PollAction::RunOp
        }),
        ({
            let n = poll_next(m, PollEvent::Directions(Directions::Inbound)).0;
            poll_next(n, PollEvent::Polled(Readiness::Ready)).1 == PollAction::RunOp
        }),
{
}

} // verus!

//! Running an operation to completion by awaiting socket readiness.
//!
//! The operation is tried; while it would block, the session is asked which
//! directions it is blocked on and the caller waits for exactly that
//! readiness (or sleeps briefly when the session is blocked on neither), then
//! tries again.  The call ends with the operation's own result, or with the
//! error of a failed readiness wait.
use vstd::prelude::*;
use crate::blocking::{
    Directions, OpOutcome, StreamKind, code_means_would_block, session_block_directions, ssh2_attempt_outcome,
    ssh2_error_code_of,
};
use crate::pause::{Pause, lemma_whole_millis_is_floor, wrapped_whole_millis};

verus! {

/// How long to sleep when the operation blocks but the session waits on
/// neither direction, in milliseconds.
pub const IDLE_WAIT_MILLIS: u64 = 10;

/// Where a call stands between two outside steps.
#[derive(Clone, Copy, Debug, PartialEq, Eq, Structural)]
pub enum XWithPhase {
    /// The operation is being tried at the start of a round.
    Attempt,
    /// The session is being asked which directions it is blocked on.
    AwaitDirections,
    /// Sleeping because the session is blocked on neither direction.
    IdleWait,
    /// Waiting for the socket readiness the session asked for.
    AwaitReady,
    /// The operation is being tried again right after the socket became ready.
    Retry,
    /// Sleeping the caller's pause at the end of a round.
    Pause,
    /// The call has returned.
    Finished,
}

/// What the outside world reports back to the machine.
#[derive(Clone, Copy, Debug, PartialEq, Eq, Structural)]
pub enum XWithEvent {
    /// An attempt of the operation ended so.
    Op(OpOutcome),
    /// The session is blocked on these directions.
    Directions(Directions),
    /// The awaited socket readiness arrived.
    Ready,
    /// Waiting for socket readiness failed with an I/O error.
    ReadyFailed,
    /// A requested sleep is over.
    Slept,
}

/// What the machine asks the outside world to do next.
#[derive(Clone, Copy, Debug, PartialEq, Eq, Structural)]
pub enum XWithAction {
    /// Try the operation and report how it ended.
    RunOp,
    /// Ask the session which directions it is blocked on.
    QueryDirections,
    /// Sleep this many milliseconds.
    Sleep(u64),
    /// Wait until the socket is readable.
    AwaitReadable,
    /// Wait until the socket is writable.
    AwaitWritable,
    /// Wait until the socket is readable and writable.
    AwaitReadWrite,
    /// Return the value of the last attempt.
    ReturnValue,
    /// Return the error of the last attempt.
    ReturnOpError,
    /// Return the I/O error of the failed readiness wait.
    ReturnReadyError,
}

/// The state of one call.
#[derive(Clone, Copy, Debug, PartialEq, Eq, Structural)]
pub struct XWith {
    /// The socket kind; only a TCP socket retries right after readiness.
    pub kind: StreamKind,
    /// The caller's pause between rounds, in the timer's milliseconds.
    pub pause_ms: Option<u64>,
    /// Where the call stands.
    pub phase: XWithPhase,
}

/// The timer's milliseconds for an optional pause.
pub open spec fn pause_millis(sleep_dur: Option<Pause>) -> Option<u64> {
    match sleep_dur {
        Some(p) => Some(wrapped_whole_millis(p@) as u64),
        None => None,
    }
}

/// Which events a phase waits for: the answer to the action that led there.
pub open spec fn x_with_accepts(phase: XWithPhase, e: XWithEvent) -> bool {
    match phase {
        XWithPhase::Attempt | XWithPhase::Retry => e is Op,
        XWithPhase::AwaitDirections => e is Directions,
        XWithPhase::IdleWait | XWithPhase::Pause => e is Slept,
        XWithPhase::AwaitReady => e is Ready || e is ReadyFailed,
        XWithPhase::Finished => false,
    }
}

/// The end of a round in which the operation blocked: sleep the caller's
/// pause if there is one, else try again at once.
pub open spec fn end_of_round(m: XWith) -> (XWith, XWithAction) {
    match m.pause_ms {
        Some(ms) => (XWith { phase: XWithPhase::Pause, ..m }, XWithAction::Sleep(ms)),
        None => (XWith { phase: XWithPhase::Attempt, ..m }, XWithAction::RunOp),
    }
}

/// The readiness wait for the directions the session is blocked on; `Neither`
/// gets the short idle sleep.
pub open spec fn wait_for(d: Directions) -> (XWithPhase, XWithAction) {
    match d {
        Directions::Neither => (XWithPhase::IdleWait, XWithAction::Sleep(IDLE_WAIT_MILLIS)),
        Directions::Inbound => (XWithPhase::AwaitReady, XWithAction::AwaitReadable),
        Directions::Outbound => (XWithPhase::AwaitReady, XWithAction::AwaitWritable),
        Directions::Both => (XWithPhase::AwaitReady, XWithAction::AwaitReadWrite),
    }
}

/// The call's next state and action after event `e`.  Only events that the
/// phase waits for (`x_with_accepts`) are ever fed; the others leave the
/// state as it is.
pub open spec fn x_with_next(m: XWith, e: XWithEvent) -> (XWith, XWithAction) {
    let finished = XWith { phase: XWithPhase::Finished, ..m };
    match m.phase {
        XWithPhase::Attempt | XWithPhase::Retry => match e {
            XWithEvent::Op(OpOutcome::Done) => (finished, XWithAction::ReturnValue),
            XWithEvent::Op(OpOutcome::Failed) => (finished, XWithAction::ReturnOpError),
            _ => if m.phase == XWithPhase::Attempt {
                (XWith { phase: XWithPhase::AwaitDirections, ..m }, XWithAction::QueryDirections)
            } else {
                end_of_round(m)
            },
        },
        XWithPhase::AwaitDirections => match e {
            XWithEvent::Directions(d) => (XWith { phase: wait_for(d).0, ..m }, wait_for(d).1),
            _ => (m, XWithAction::QueryDirections),
        },
        XWithPhase::IdleWait => end_of_round(m),
        XWithPhase::AwaitReady => match e {
            XWithEvent::ReadyFailed => (finished, XWithAction::ReturnReadyError),
            _ => match m.kind {
                StreamKind::Tcp => (XWith { phase: XWithPhase::Retry, ..m }, XWithAction::RunOp),
                StreamKind::Unix => end_of_round(m),
            },
        },
        XWithPhase::Pause => (XWith { phase: XWithPhase::Attempt, ..m }, XWithAction::RunOp),
        XWithPhase::Finished => (m, XWithAction::ReturnValue),
    }
}

impl XWith {
    /// A call that will run an operation over a socket of `kind`, pausing
    /// `sleep_dur` between rounds.  Its first action is to try the operation.
    /// The directions the caller expects to block on play no part: the call
    /// always waits for what the session reports.
    pub fn new(kind: StreamKind, expected: Directions, sleep_dur: Option<Pause>) -> (m: XWith)
        ensures
            m == (XWith { kind, pause_ms: pause_millis(sleep_dur), phase: XWithPhase::Attempt }),
    {
        let pause_ms = match sleep_dur {
            Some(p) => Some(p.whole_millis()),
            None => None,
        };
        XWith { kind, pause_ms, phase: XWithPhase::Attempt }
    }

    /// Whether the machine waits for event `e` now.
    pub fn accepts(&self, e: XWithEvent) -> (b: bool)
        ensures
            b == x_with_accepts(self.phase, e),
    {
        match self.phase {
            XWithPhase::Attempt | XWithPhase::Retry => matches!(e, XWithEvent::Op(_)),
            XWithPhase::AwaitDirections => matches!(e, XWithEvent::Directions(_)),
            XWithPhase::IdleWait | XWithPhase::Pause => matches!(e, XWithEvent::Slept),
            XWithPhase::AwaitReady => matches!(e, XWithEvent::Ready | XWithEvent::ReadyFailed),
            XWithPhase::Finished => false,
        }
    }

    /// Moves the call on by event `e` and returns what to do next.
    pub fn step(&mut self, e: XWithEvent) -> (a: XWithAction)
        requires
            x_with_accepts(old(self).phase, e),
        ensures
            (*final(self), a) == x_with_next(*old(self), e),
    {
        let end_of_round_now = |m: XWith| -> (r: (XWith, XWithAction))
            ensures
                r == end_of_round(m),
            {
                match m.pause_ms {
                    Some(ms) => (XWith { phase: XWithPhase::Pause, ..m }, XWithAction::Sleep(ms)),
                    None => (XWith { phase: XWithPhase::Attempt, ..m }, XWithAction::RunOp),
                }
            };
        let m = *self;
        let (next, a) = match m.phase {
            XWithPhase::Attempt | XWithPhase::Retry => match e {
                XWithEvent::Op(OpOutcome::Done) => (XWith { phase: XWithPhase::Finished, ..m }, XWithAction::ReturnValue),
                XWithEvent::Op(OpOutcome::Failed) => (XWith { phase: XWithPhase::Finished, ..m }, XWithAction::ReturnOpError),
                _ => if m.phase == XWithPhase::Attempt {
                    (XWith { phase: XWithPhase::AwaitDirections, ..m }, XWithAction::QueryDirections)
                } else {
                    end_of_round_now(m)
                },
            },
            XWithPhase::AwaitDirections => match e {
                XWithEvent::Directions(Directions::Neither) => (XWith { phase: XWithPhase::IdleWait, ..m }, XWithAction::Sleep(IDLE_WAIT_MILLIS)),
                XWithEvent::Directions(Directions::Inbound) => (XWith { phase: XWithPhase::AwaitReady, ..m }, XWithAction::AwaitReadable),
                XWithEvent::Directions(Directions::Outbound) => (XWith { phase: XWithPhase::AwaitReady, ..m }, XWithAction::AwaitWritable),
                XWithEvent::Directions(Directions::Both) => (XWith { phase: XWithPhase::AwaitReady, ..m }, XWithAction::AwaitReadWrite),
                _ => (m, XWithAction::QueryDirections),
            },
            XWithPhase::IdleWait => end_of_round_now(m),
            XWithPhase::AwaitReady => match e {
                XWithEvent::ReadyFailed => (XWith { phase: XWithPhase::Finished, ..m }, XWithAction::ReturnReadyError),
                _ => match m.kind {
                    StreamKind::Tcp => (XWith { phase: XWithPhase::Retry, ..m }, XWithAction::RunOp),
                    StreamKind::Unix => end_of_round_now(m),
                },
            },
            XWithPhase::Pause => (XWith { phase: XWithPhase::Attempt, ..m }, XWithAction::RunOp),
            XWithPhase::Finished => (m, XWithAction::ReturnValue),
        };
        *self = next;
        a
    }
}

impl XWith {
    /// Moves the call on by the result `r` of an attempt of the operation and
    /// returns how the attempt ended and what to do next.  An `Ok` result ends
    /// the call with its value; an error would block exactly when its code is
    /// the session code `LIBSSH2_ERROR_EAGAIN`.
    pub fn on_attempt<R>(&mut self, r: &Result<R, ssh2::Error>) -> (res: (OpOutcome, XWithAction))
        requires
            old(self).phase == XWithPhase::Attempt || old(self).phase == XWithPhase::Retry,
        ensures
            (r is Ok) <==> res.0 == OpOutcome::Done,
            (r is Err) ==> (res.0 == OpOutcome::WouldBlock <==> code_means_would_block(ssh2_error_code_of(r->Err_0))),
            (*final(self), res.1) == x_with_next(*old(self), XWithEvent::Op(res.0)),
    {
        let o = ssh2_attempt_outcome(r);
        let a = self.step(XWithEvent::Op(o));
        (o, a)
    }

    /// Asks the session `sess` which directions it is blocked on, moves the
    /// call on by the answer, and returns the answer and what to do next.
    pub fn on_directions(&mut self, sess: &ssh2::Session) -> (res: (Directions, XWithAction))
        requires
            old(self).phase == XWithPhase::AwaitDirections,
        ensures
            (*final(self), res.1) == x_with_next(*old(self), XWithEvent::Directions(res.0)),
    {
        let d = session_block_directions(sess);
        let a = self.step(XWithEvent::Directions(d));
        (d, a)
    }
}

/// Whether every event of `evs`, fed in order from state `m`, is one the call
/// waits for at that point.
pub open spec fn x_with_runs(m: XWith, evs: Seq<XWithEvent>) -> bool
    decreases evs.len(),
{
    evs.len() == 0 || (x_with_accepts(m.phase, evs[0]) && x_with_runs(
        x_with_next(m, evs[0]).0,
        evs.drop_first(),
    ))
}

/// The actions answered to the events `evs`, fed in order from state `m`.
pub open spec fn x_with_actions(m: XWith, evs: Seq<XWithEvent>) -> Seq<XWithAction>
    decreases evs.len(),
{
    if evs.len() == 0 {
        Seq::empty()
    } else {
        seq![x_with_next(m, evs[0]).1] + x_with_actions(x_with_next(m, evs[0]).0, evs.drop_first())
    }
}

/// An action that tries the operation or ends the call.
pub open spec fn tries_or_returns(a: XWithAction) -> bool {
    ||| a is RunOp
    ||| a is ReturnValue
    ||| a is ReturnOpError
    ||| a is ReturnReadyError
}

/// How many more waits a phase can go through before the operation is tried
/// again or the call ends.
pub open spec fn waits_left(phase: XWithPhase) -> nat {
    match phase {
        XWithPhase::Attempt => 3,
        XWithPhase::AwaitDirections => 2,
        XWithPhase::IdleWait | XWithPhase::AwaitReady | XWithPhase::Retry => 1,
        XWithPhase::Pause | XWithPhase::Finished => 0,
    }
}

/// Each step either tries the operation, ends the call, or brings the next
/// attempt closer.
proof fn lemma_step_progresses(m: XWith, e: XWithEvent)
    requires
        x_with_accepts(m.phase, e),
    ensures
        tries_or_returns(x_with_next(m, e).1) || waits_left(x_with_next(m, e).0.phase) < waits_left(m.phase),
{
}

proof fn lemma_x_with_actions_len(m: XWith, evs: Seq<XWithEvent>)
    ensures
        x_with_actions(m, evs).len() == evs.len(),
    decreases evs.len(),
{
    if evs.len() > 0 {
        lemma_x_with_actions_len(x_with_next(m, evs[0]).0, evs.drop_first());
    }
}

proof fn lemma_retried_within_rank(m: XWith, evs: Seq<XWithEvent>)
    requires
        x_with_runs(m, evs),
        evs.len() > waits_left(m.phase),
    ensures
        exists|i: int| 0 <= i <= waits_left(m.phase) && tries_or_returns(#[trigger] x_with_actions(m, evs)[i]),
    decreases evs.len(),
{
    let (n, a) = x_with_next(m, evs[0]);
    let rest = evs.drop_first();
    lemma_step_progresses(m, evs[0]);
    assert(x_with_actions(m, evs) == seq![a] + x_with_actions(n, rest));
    lemma_x_with_actions_len(m, evs);
    if tries_or_returns(a) {
        assert(x_with_actions(m, evs)[0] == a);
    } else {
        lemma_retried_within_rank(n, rest);
        lemma_x_with_actions_len(n, rest);
        let j = choose|j: int| 0 <= j <= waits_left(n.phase) && tries_or_returns(#[trigger] x_with_actions(n, rest)[j]);
        assert(x_with_actions(m, evs)[j + 1] == x_with_actions(n, rest)[j]);
    }
}

/// The call never busy-waits on the outside world: among the answers to any
/// four events in a row, one tries the operation again or ends the call.
pub proof fn lemma_op_retried_within_four_waits(m: XWith, evs: Seq<XWithEvent>)
    requires
        x_with_runs(m, evs),
        evs.len() >= 4,
    ensures
        exists|i: int| 0 <= i < 4 && tries_or_returns(#[trigger] x_with_actions(m, evs)[i]),
{
    lemma_retried_within_rank(m, evs);
}

/// The call ends exactly when an attempt did not block or a readiness wait
/// failed, and then returns that attempt's value or error, or the wait's
/// error.  No other event ends it, and the socket kind and the pause never
/// change.
pub proof fn lemma_returns_only_final_outcomes(m: XWith, e: XWithEvent)
    requires
        x_with_accepts(m.phase, e),
    ensures
        x_with_next(m, e).0.kind == m.kind,
        x_with_next(m, e).0.pause_ms == m.pause_ms,
        (x_with_next(m, e).0.phase == XWithPhase::Finished) <==> (e == XWithEvent::Op(OpOutcome::Done)
            || e == XWithEvent::Op(OpOutcome::Failed) || e == XWithEvent::ReadyFailed),
        (x_with_next(m, e).1 == XWithAction::ReturnValue) <==> e == XWithEvent::Op(OpOutcome::Done),
        (x_with_next(m, e).1 == XWithAction::ReturnOpError) <==> e == XWithEvent::Op(OpOutcome::Failed),
        (x_with_next(m, e).1 == XWithAction::ReturnReadyError) <==> e == XWithEvent::ReadyFailed,
{
}

/// The call waits for what the session reports, not for what the caller
/// expected: readable for inbound, writable for outbound, both for both, and
/// a short idle sleep when the session is blocked on neither direction.
pub proof fn lemma_waits_for_reported_directions(m: XWith, d: Directions)
    requires
        m.phase == XWithPhase::AwaitDirections,
    ensures
        x_with_next(m, XWithEvent::Directions(d)).1 == (match d {
            Directions::Neither => XWithAction::Sleep(IDLE_WAIT_MILLIS),
            Directions::Inbound => XWithAction::AwaitReadable,
            Directions::Outbound => XWithAction::AwaitWritable,
            Directions::Both => XWithAction::AwaitReadWrite,
        }),
{
}

/// Once the socket is ready, a TCP call tries the operation again at once,
/// while a Unix call ends the round.
pub proof fn lemma_readiness_then_retry(m: XWith)
    requires
        m.phase == XWithPhase::AwaitReady,
    ensures
        m.kind == StreamKind::Tcp ==> x_with_next(m, XWithEvent::Ready) == (XWith { phase: XWithPhase::Retry, ..m }, XWithAction::RunOp),
        m.kind == StreamKind::Unix ==> x_with_next(m, XWithEvent::Ready) == end_of_round(m),
{
}

/// A new round starts only after the caller's pause, when one was given:
/// the operation is tried afresh only from the pause or when there is no
/// pause, and every sleep at the end of a round is the caller's pause.
pub proof fn lemma_rounds_separated_by_pause(m: XWith, e: XWithEvent)
    requires
        x_with_accepts(m.phase, e),
    ensures
        x_with_next(m, e).0.phase == XWithPhase::Attempt ==> (m.phase == XWithPhase::Pause || m.pause_ms is None),
        x_with_next(m, e).0.phase == XWithPhase::Pause ==> x_with_next(m, e).1 == XWithAction::Sleep(m.pause_ms.unwrap()),
{
}

/// An event that ends the call: an attempt that did not block, or a failed
/// readiness wait.
pub open spec fn final_event(e: XWithEvent) -> bool {
    ||| e == XWithEvent::Op(OpOutcome::Done)
    ||| e == XWithEvent::Op(OpOutcome::Failed)
    ||| e == XWithEvent::ReadyFailed
}

/// An action that returns from the call.
pub open spec fn ends_call(a: XWithAction) -> bool {
    ||| a is ReturnValue
    ||| a is ReturnOpError
    ||| a is ReturnReadyError
}

/// The outcomes of the attempts that `evs` reports, in order.
pub open spec fn attempt_outcomes(evs: Seq<XWithEvent>) -> Seq<OpOutcome>
    decreases evs.len(),
{
    if evs.len() == 0 {
        Seq::empty()
    } else {
        let head: Seq<OpOutcome> = match evs[0] {
            XWithEvent::Op(o) => seq![o],
            _ => Seq::empty(),
        };
        head + attempt_outcomes(evs.drop_first())
    }
}

/// A call returns at exactly the event that ends it, and no such event can
/// come before the last one: while attempts keep blocking and waits keep
/// succeeding, the call goes on without limit.  It returns the value of an
/// attempt that completed, the error of an attempt that failed, and the error
/// of a failed readiness wait.
pub proof fn lemma_returns_exactly_at_final_event(m: XWith, evs: Seq<XWithEvent>)
    requires
        x_with_runs(m, evs),
    ensures
        x_with_actions(m, evs).len() == evs.len(),
        forall|i: int| 0 <= i < evs.len() - 1 ==> !final_event(#[trigger] evs[i]),
        forall|i: int| 0 <= i < evs.len() ==> (ends_call(#[trigger] x_with_actions(m, evs)[i]) <==> final_event(evs[i])),
        forall|i: int| 0 <= i < evs.len() ==> ((#[trigger] x_with_actions(m, evs)[i] == XWithAction::ReturnValue)
            <==> evs[i] == XWithEvent::Op(OpOutcome::Done)),
        forall|i: int| 0 <= i < evs.len() ==> ((#[trigger] x_with_actions(m, evs)[i] == XWithAction::ReturnOpError)
            <==> evs[i] == XWithEvent::Op(OpOutcome::Failed)),
        forall|i: int| 0 <= i < evs.len() ==> ((#[trigger] x_with_actions(m, evs)[i] == XWithAction::ReturnReadyError)
            <==> evs[i] == XWithEvent::ReadyFailed),
    decreases evs.len(),
{
    lemma_x_with_actions_len(m, evs);
    if evs.len() > 0 {
        let (n, a) = x_with_next(m, evs[0]);
        let rest = evs.drop_first();
        lemma_returns_only_final_outcomes(m, evs[0]);
        lemma_returns_exactly_at_final_event(n, rest);
        let acts = x_with_actions(m, evs);
        assert(acts == seq![a] + x_with_actions(n, rest));
        assert forall|i: int| 0 <= i < evs.len() - 1 implies !final_event(#[trigger] evs[i]) by {
            if i == 0 {
                assert(x_with_runs(n, rest));
                assert(x_with_accepts(n.phase, rest[0]));
                assert(n.phase != XWithPhase::Finished);
            } else {
                assert(evs[i] == rest[i - 1]);
            }
        }
        assert forall|i: int| 0 < i < evs.len() implies #[trigger] acts[i] == x_with_actions(n, rest)[i - 1]
            && evs[i] == rest[i - 1] by {}
    }
}

proof fn lemma_blocked_attempts_then_last(evs: Seq<XWithEvent>, o: OpOutcome)
    requires
        evs.len() > 0,
        evs.last() == XWithEvent::Op(o),
        forall|i: int| 0 <= i < evs.len() - 1 ==> (#[trigger] evs[i] is Op ==> evs[i] == XWithEvent::Op(OpOutcome::WouldBlock)),
    ensures
        attempt_outcomes(evs).len() > 0,
        attempt_outcomes(evs).last() == o,
        forall|j: int| 0 <= j < attempt_outcomes(evs).len() - 1 ==> #[trigger] attempt_outcomes(evs)[j] == OpOutcome::WouldBlock,
    decreases evs.len(),
{
    let rest = evs.drop_first();
    if evs.len() == 1 {
        assert(attempt_outcomes(rest) == Seq::<OpOutcome>::empty());
        assert(attempt_outcomes(evs) == seq![o] + Seq::<OpOutcome>::empty());
    } else {
        assert forall|i: int| 0 <= i < rest.len() - 1 implies (#[trigger] rest[i] is Op ==> rest[i] == XWithEvent::Op(OpOutcome::WouldBlock)) by {
            assert(rest[i] == evs[i + 1]);
        }
        lemma_blocked_attempts_then_last(rest, o);
        let tail = attempt_outcomes(rest);
        if evs[0] is Op {
            assert(evs[0] == XWithEvent::Op(OpOutcome::WouldBlock));
            assert(attempt_outcomes(evs) == seq![OpOutcome::WouldBlock] + tail);
            assert forall|j: int| 0 <= j < attempt_outcomes(evs).len() - 1 implies #[trigger] attempt_outcomes(evs)[j] == OpOutcome::WouldBlock by {
                if j > 0 {
                    assert(attempt_outcomes(evs)[j] == tail[j - 1]);
                }
            }
        } else {
            assert(attempt_outcomes(evs) == Seq::<OpOutcome>::empty() + tail);
            assert(attempt_outcomes(evs) == tail);
        }
    }
}

/// A call returns the result of the first attempt that does not block, after
/// exactly that many attempts: in a run that returns without a failed
/// readiness wait, every attempt but the last blocked, the last did not, and
/// the call returns its value if it completed and its error if it failed.
pub proof fn lemma_returns_first_non_blocking_attempt(m: XWith, evs: Seq<XWithEvent>)
    requires
        x_with_runs(m, evs),
        evs.len() > 0,
        ends_call(x_with_actions(m, evs).last()),
        forall|i: int| 0 <= i < evs.len() ==> #[trigger] evs[i] != XWithEvent::ReadyFailed,
    ensures
        attempt_outcomes(evs).len() > 0,
        forall|j: int| 0 <= j < attempt_outcomes(evs).len() - 1 ==> #[trigger] attempt_outcomes(evs)[j] == OpOutcome::WouldBlock,
        attempt_outcomes(evs).last() != OpOutcome::WouldBlock,
        (x_with_actions(m, evs).last() == XWithAction::ReturnValue) <==> attempt_outcomes(evs).last() == OpOutcome::Done,
        (x_with_actions(m, evs).last() == XWithAction::ReturnOpError) <==> attempt_outcomes(evs).last() == OpOutcome::Failed,
{
    lemma_returns_exactly_at_final_event(m, evs);
    let k = evs.len() - 1;
    assert(x_with_actions(m, evs).last() == x_with_actions(m, evs)[k]);
    assert(final_event(evs[k]));
    let o = if evs[k] == XWithEvent::Op(OpOutcome::Done) { OpOutcome::Done } else { OpOutcome::Failed };
    assert(evs.last() == XWithEvent::Op(o));
    assert forall|i: int| 0 <= i < evs.len() - 1 implies (#[trigger] evs[i] is Op ==> evs[i] == XWithEvent::Op(OpOutcome::WouldBlock)) by {
        assert(!final_event(evs[i]));
    }
    lemma_blocked_attempts_then_last(evs, o);
}

/// Calls fed the same attempt results return the same result after the same
/// attempts, whatever the socket kind, the pause, or the directions and
/// readiness in between: two runs that return without a failed readiness
/// wait, whose attempts agree as far as both go, made the same attempts and
/// end with the same return.
pub proof fn lemma_same_attempts_same_result(
    m1: XWith,
    evs1: Seq<XWithEvent>,
    m2: XWith,
    evs2: Seq<XWithEvent>,
)
    requires
        x_with_runs(m1, evs1),
        x_with_runs(m2, evs2),
        evs1.len() > 0,
        evs2.len() > 0,
        ends_call(x_with_actions(m1, evs1).last()),
        ends_call(x_with_actions(m2, evs2).last()),
        forall|i: int| 0 <= i < evs1.len() ==> #[trigger] evs1[i] != XWithEvent::ReadyFailed,
        forall|i: int| 0 <= i < evs2.len() ==> #[trigger] evs2[i] != XWithEvent::ReadyFailed,
        forall|j: int| 0 <= j < attempt_outcomes(evs1).len() && 0 <= j < attempt_outcomes(evs2).len()
            ==> #[trigger] attempt_outcomes(evs1)[j] == attempt_outcomes(evs2)[j],
    ensures
        attempt_outcomes(evs1) == attempt_outcomes(evs2),
        x_with_actions(m1, evs1).last() == x_with_actions(m2, evs2).last(),
{
    lemma_returns_first_non_blocking_attempt(m1, evs1);
    lemma_returns_first_non_blocking_attempt(m2, evs2);
    let os1 = attempt_outcomes(evs1);
    let os2 = attempt_outcomes(evs2);
    if os1.len() < os2.len() {
        assert(os1[os1.len() - 1] == os2[os1.len() - 1]);
    } else if os2.len() < os1.len() {
        assert(os1[os2.len() - 1] == os2[os2.len() - 1]);
    }
    assert(os1.len() == os2.len());
    assert(os1 =~= os2);
}

/// A call built with a pause sleeps the pause's whole milliseconds between
/// rounds: for a pause below `2^64` milliseconds, the largest count of
/// milliseconds not longer than the pause; without a pause it does not sleep.
pub proof fn lemma_pause_is_whole_millis(p: Pause)
    ensures
        pause_millis(None) is None,
        pause_millis(Some(p)) is Some,
        p@ < 0x1_0000_0000_0000_0000nat * 1_000_000 ==> {
            let ms = pause_millis(Some(p))->0;
            &&& ms * 1_000_000 <= p@
            &&& p@ < (ms + 1) * 1_000_000
        },
{
    lemma_whole_millis_is_floor(p@);
}

/// A blocked attempt never leads straight to another attempt of the same
/// round: the first attempt of a round asks the session for its directions,
/// and a blocked retry ends the round, sleeping the caller's pause if there
/// is one and else starting a fresh round whose attempt will ask again.
pub proof fn lemma_blocked_attempt_asks_or_ends_round(m: XWith)
    requires
        m.phase == XWithPhase::Attempt || m.phase == XWithPhase::Retry,
    ensures
        m.phase == XWithPhase::Attempt ==> x_with_next(m, XWithEvent::Op(OpOutcome::WouldBlock)) == (
        XWith { phase: XWithPhase::AwaitDirections, ..m }, XWithAction::QueryDirections),
        m.phase == XWithPhase::Retry ==> match m.pause_ms {
            Some(ms) => x_with_next(m, XWithEvent::Op(OpOutcome::WouldBlock)) == (
            XWith { phase: XWithPhase::Pause, ..m }, XWithAction::Sleep(ms)),
            None => x_with_next(m, XWithEvent::Op(OpOutcome::WouldBlock)) == (
            XWith { phase: XWithPhase::Attempt, ..m }, XWithAction::RunOp),
        },
{
}

/// The operation is tried again within a round only right after a successful
/// readiness wait on a TCP socket; every other attempt opens a round.
pub proof fn lemma_retry_only_after_readiness(m: XWith, e: XWithEvent)
    requires
        x_with_accepts(m.phase, e),
        x_with_next(m, e).0.phase == XWithPhase::Retry,
    ensures
        m.phase == XWithPhase::AwaitReady,
        e == XWithEvent::Ready,
        m.kind == StreamKind::Tcp,
{
}

} // verus!

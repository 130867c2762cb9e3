use async_ssh2_lite::blocking::{Directions, OpOutcome, StreamKind};
use async_ssh2_lite::pause::Pause;
use async_ssh2_lite::poll_x_with::{
    PollAction, PollEvent, PollPhase, PollXWith, Readiness, Wake, TCP_IDLE_WAKE_MILLIS, UNIX_IDLE_WAKE_MILLIS,
};

fn run(m: &mut PollXWith, events: &[PollEvent]) -> Vec<PollAction> {
    let mut actions = Vec::new();
    for e in events {
        assert!(m.accepts(*e), "event {:?} not accepted in {:?}", e, m.phase);
        actions.push(m.step(*e));
    }
    actions
}

const BLOCKED: PollEvent = PollEvent::Op(OpOutcome::WouldBlock);

#[test]
fn non_blocking_first_attempt_is_returned() {
    for o in [OpOutcome::Done, OpOutcome::Failed] {
        let mut m = PollXWith::new(StreamKind::Tcp, Directions::Inbound, None);
        assert_eq!(m.phase, PollPhase::FirstAttempt);
        assert_eq!(run(&mut m, &[PollEvent::Op(o)]), vec![PollAction::ReadyWithOpResult]);
        assert_eq!(m.phase, PollPhase::Done);
    }
}

#[test]
fn tcp_idle_session_wakes_after_the_pause_or_one_milli() {
    assert_eq!(TCP_IDLE_WAKE_MILLIS, 1);
    let mut m = PollXWith::new(StreamKind::Tcp, Directions::Inbound, None);
    assert_eq!(
        run(&mut m, &[BLOCKED, PollEvent::Directions(Directions::Neither)]),
        vec![PollAction::QueryDirections, PollAction::Pending(Wake::AfterSleep(1))]
    );
    let mut m = PollXWith::new(StreamKind::Tcp, Directions::Inbound, Some(Pause::from_millis(20)));
    assert_eq!(
        run(&mut m, &[BLOCKED, PollEvent::Directions(Directions::Neither)]),
        vec![PollAction::QueryDirections, PollAction::Pending(Wake::AfterSleep(20))]
    );
    assert_eq!(m.phase, PollPhase::Done);
}

#[test]
fn unix_idle_session_always_wakes_after_fifty_millis() {
    assert_eq!(UNIX_IDLE_WAKE_MILLIS, 50);
    for pause in [None, Some(Pause::from_millis(20))] {
        let mut m = PollXWith::new(StreamKind::Unix, Directions::Inbound, pause);
        assert_eq!(
            run(&mut m, &[BLOCKED, PollEvent::Directions(Directions::Neither)]),
            vec![PollAction::QueryDirections, PollAction::Pending(Wake::AfterSleep(50))]
        );
    }
}

#[test]
fn inbound_polls_readable_then_retries() {
    let mut m = PollXWith::new(StreamKind::Unix, Directions::Outbound, None);
    let actions = run(
        &mut m,
        &[BLOCKED, PollEvent::Directions(Directions::Inbound), PollEvent::Polled(Readiness::Ready), PollEvent::Op(OpOutcome::Done)],
    );
    assert_eq!(
        actions,
        vec![PollAction::QueryDirections, PollAction::PollReadReady, PollAction::RunOp, PollAction::ReadyWithOpResult]
    );
}

#[test]
fn outbound_polls_writable_then_retries() {
    let mut m = PollXWith::new(StreamKind::Tcp, Directions::Inbound, None);
    let actions = run(
        &mut m,
        &[BLOCKED, PollEvent::Directions(Directions::Outbound), PollEvent::Polled(Readiness::Ready), PollEvent::Op(OpOutcome::Failed)],
    );
    assert_eq!(
        actions,
        vec![PollAction::QueryDirections, PollAction::PollWriteReady, PollAction::RunOp, PollAction::ReadyWithOpResult]
    );
}

#[test]
fn both_polls_writable_then_readable_and_takes_seven_steps_at_most() {
    let mut m = PollXWith::new(StreamKind::Tcp, Directions::Inbound, None);
    let actions = run(
        &mut m,
        &[
            BLOCKED,
            PollEvent::Directions(Directions::Both),
            PollEvent::Polled(Readiness::Ready),
            PollEvent::Polled(Readiness::Ready),
            BLOCKED,
            PollEvent::Directions(Directions::Inbound),
            BLOCKED,
        ],
    );
    assert_eq!(
        actions,
        vec![
            PollAction::QueryDirections,
            PollAction::PollWriteReady,
            PollAction::PollReadReady,
            PollAction::RunOp,
            PollAction::QueryDirections,
            PollAction::RunOp,
            PollAction::Pending(Wake::AfterYield),
        ]
    );
    assert_eq!(m.phase, PollPhase::Done);
    assert!(!m.accepts(BLOCKED));
}

#[test]
fn recheck_finding_neither_yields() {
    let mut m = PollXWith::new(StreamKind::Unix, Directions::Inbound, None);
    let actions = run(
        &mut m,
        &[
            BLOCKED,
            PollEvent::Directions(Directions::Outbound),
            PollEvent::Polled(Readiness::Ready),
            BLOCKED,
            PollEvent::Directions(Directions::Neither),
        ],
    );
    assert_eq!(actions[4], PollAction::Pending(Wake::AfterYield));
}

#[test]
fn last_attempt_result_is_returned() {
    let mut m = PollXWith::new(StreamKind::Tcp, Directions::Inbound, None);
    let actions = run(
        &mut m,
        &[
            BLOCKED,
            PollEvent::Directions(Directions::Inbound),
            PollEvent::Polled(Readiness::Ready),
            BLOCKED,
            PollEvent::Directions(Directions::Outbound),
            PollEvent::Op(OpOutcome::Done),
        ],
    );
    assert_eq!(actions[5], PollAction::ReadyWithOpResult);
}

#[test]
fn pending_readiness_relies_on_the_socket_waker() {
    for d in [Directions::Inbound, Directions::Outbound, Directions::Both] {
        let mut m = PollXWith::new(StreamKind::Tcp, Directions::Inbound, None);
        let actions = run(&mut m, &[BLOCKED, PollEvent::Directions(d), PollEvent::Polled(Readiness::Pending)]);
        assert_eq!(actions[2], PollAction::Pending(Wake::OnReadiness));
    }
    // Pending on the second readiness poll of `Both`.
    let mut m = PollXWith::new(StreamKind::Unix, Directions::Inbound, None);
    let actions = run(
        &mut m,
        &[
            BLOCKED,
            PollEvent::Directions(Directions::Both),
            PollEvent::Polled(Readiness::Ready),
            PollEvent::Polled(Readiness::Pending),
        ],
    );
    assert_eq!(actions[3], PollAction::Pending(Wake::OnReadiness));
}

#[test]
fn failed_readiness_poll_is_returned() {
    let mut m = PollXWith::new(StreamKind::Tcp, Directions::Inbound, None);
    let actions = run(&mut m, &[BLOCKED, PollEvent::Directions(Directions::Both), PollEvent::Polled(Readiness::Failed)]);
    assert_eq!(actions[2], PollAction::ReadyWithPollError);
}

#[test]
fn poll_on_attempt_classifies_io_results() {
    let mut m = PollXWith::new(StreamKind::Tcp, Directions::Inbound, None);
    let blocked: Result<usize, std::io::Error> = Err(std::io::Error::from(std::io::ErrorKind::WouldBlock));
    assert_eq!(m.on_attempt(&blocked), (OpOutcome::WouldBlock, PollAction::QueryDirections));
    let mut m = PollXWith::new(StreamKind::Tcp, Directions::Inbound, None);
    let failed: Result<usize, std::io::Error> = Err(std::io::Error::from(std::io::ErrorKind::BrokenPipe));
    assert_eq!(m.on_attempt(&failed), (OpOutcome::Failed, PollAction::ReadyWithOpResult));
    let mut m = PollXWith::new(StreamKind::Unix, Directions::Inbound, None);
    let ok: Result<usize, std::io::Error> = Ok(3);
    assert_eq!(m.on_attempt(&ok), (OpOutcome::Done, PollAction::ReadyWithOpResult));
}

#[test]
fn poll_on_directions_asks_the_session() {
    let sess = ssh2::Session::new().unwrap();
    let mut m = PollXWith::new(StreamKind::Unix, Directions::Inbound, None);
    m.step(BLOCKED);
    assert_eq!(m.on_directions(&sess), (Directions::Neither, PollAction::Pending(Wake::AfterSleep(50))));
}

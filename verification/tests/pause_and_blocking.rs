use async_ssh2_lite::blocking::{
    io_attempt_outcome, ssh2_attempt_outcome, ssh2_code_is_would_block, ssh2_error_is_would_block,
    OpOutcome, Ssh2ErrorCode, LIBSSH2_ERROR_EAGAIN,
};
use async_ssh2_lite::pause::Pause;

#[test]
fn whole_millis_of_seconds_and_nanos() {
    assert_eq!(Pause::new(1, 500_000_000).whole_millis(), 1500);
    assert_eq!(Pause::new(0, 0).whole_millis(), 0);
}

#[test]
fn whole_millis_drops_the_fraction_of_a_millisecond() {
    assert_eq!(Pause::new(0, 999_999).whole_millis(), 0);
    assert_eq!(Pause::new(2, 1_999_999).whole_millis(), 2001);
}

#[test]
fn new_carries_nanos_into_seconds() {
    assert_eq!(Pause::new(0, 1_999_999_999).whole_millis(), 1999);
    assert_eq!(Pause::new(3, 4_000_000_000).whole_millis(), 7000);
}

#[test]
fn from_millis_round_trips() {
    assert_eq!(Pause::from_millis(1).whole_millis(), 1);
    assert_eq!(Pause::from_millis(10).whole_millis(), 10);
    assert_eq!(Pause::from_millis(123_456).whole_millis(), 123_456);
    assert_eq!(Pause::from_millis(u64::MAX).whole_millis(), u64::MAX);
}

#[test]
fn whole_millis_wraps_like_the_timer_cast() {
    let expected = (u64::MAX as u128 * 1000 % (1u128 << 64)) as u64;
    assert_eq!(Pause::new(u64::MAX, 0).whole_millis(), expected);
    assert_eq!(Pause::new(u64::MAX, 0).whole_millis(), u64::MAX.wrapping_mul(1000));
}

#[test]
fn only_session_eagain_would_block() {
    assert_eq!(LIBSSH2_ERROR_EAGAIN, -37);
    assert!(ssh2_code_is_would_block(Ssh2ErrorCode::Session(-37)));
    assert!(!ssh2_code_is_would_block(Ssh2ErrorCode::Session(-9)));
    assert!(!ssh2_code_is_would_block(Ssh2ErrorCode::Session(0)));
    assert!(!ssh2_code_is_would_block(Ssh2ErrorCode::Sftp(-37)));
}

#[test]
fn ssh2_error_classification() {
    let eagain = ssh2::Error::new(ssh2::ErrorCode::Session(-37), "would block");
    let timeout = ssh2::Error::new(ssh2::ErrorCode::Session(-9), "timed out");
    let sftp = ssh2::Error::new(ssh2::ErrorCode::SFTP(-37), "sftp");
    assert!(ssh2_error_is_would_block(&eagain));
    assert!(!ssh2_error_is_would_block(&timeout));
    assert!(!ssh2_error_is_would_block(&sftp));
}

#[test]
fn ssh2_attempt_outcomes() {
    let ok: Result<u32, ssh2::Error> = Ok(5);
    let blocked: Result<u32, ssh2::Error> = Err(ssh2::Error::new(ssh2::ErrorCode::Session(-37), "again"));
    let failed: Result<u32, ssh2::Error> = Err(ssh2::Error::new(ssh2::ErrorCode::Session(-9), "timed out"));
    assert_eq!(ssh2_attempt_outcome(&ok), OpOutcome::Done);
    assert_eq!(ssh2_attempt_outcome(&blocked), OpOutcome::WouldBlock);
    assert_eq!(ssh2_attempt_outcome(&failed), OpOutcome::Failed);
}

#[test]
fn io_attempt_outcomes() {
    let ok: Result<(), std::io::Error> = Ok(());
    let blocked: Result<(), std::io::Error> = Err(std::io::Error::from(std::io::ErrorKind::WouldBlock));
    let failed: Result<(), std::io::Error> = Err(std::io::Error::from(std::io::ErrorKind::ConnectionReset));
    assert_eq!(io_attempt_outcome(&ok), OpOutcome::Done);
    assert_eq!(io_attempt_outcome(&blocked), OpOutcome::WouldBlock);
    assert_eq!(io_attempt_outcome(&failed), OpOutcome::Failed);
}

#[test]
fn ssh2_would_block_converts_to_io_would_block() {
    // ssh2 itself maps the EAGAIN session code to `ErrorKind::WouldBlock`.
    let err = ssh2::Error::new(ssh2::ErrorCode::Session(-37), "again");
    assert!(ssh2_error_is_would_block(&err));
    let io: std::io::Error = err.into();
    assert_eq!(io.kind(), std::io::ErrorKind::WouldBlock);
}

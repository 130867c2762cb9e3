//! What blocks: the socket directions a session waits on, and whether an
//! attempt of an operation failed only because it would have blocked.
use vstd::prelude::*;

verus! {

/// The socket directions that an SSH session is blocked on: what it has to
/// read, write, or both, before an operation can make progress.
#[derive(Clone, Copy, Debug, PartialEq, Eq, Structural)]
pub enum Directions {
    /// The session waits on neither direction.
    Neither,
    /// The session waits for bytes to read.
    Inbound,
    /// The session waits for room to write.
    Outbound,
    /// The session waits for both.
    Both,
}

/// Which kind of socket carries the session.  The two kinds make the same
/// decisions except where noted on the state machines.
#[derive(Clone, Copy, Debug, PartialEq, Eq, Structural)]
pub enum StreamKind {
    /// A TCP socket.
    Tcp,
    /// A Unix domain socket.
    Unix,
}

/// How one attempt of an operation ended.
#[derive(Clone, Copy, Debug, PartialEq, Eq, Structural)]
pub enum OpOutcome {
    /// The operation completed with a value.
    Done,
    /// The operation could not proceed without blocking.
    WouldBlock,
    /// The operation failed for another reason.
    Failed,
}

/// The code carried by an ssh2 error.
#[derive(Clone, Copy, Debug, PartialEq, Eq, Structural)]
pub enum Ssh2ErrorCode {
    /// A `LIBSSH2_ERROR_*` code of the session.
    Session(i32),
    /// A `LIBSSH2_FX_*` code of the SFTP subsystem.
    Sftp(i32),
}

/// libssh2's code for "the call would block; try again".
pub const LIBSSH2_ERROR_EAGAIN: i32 = -37;

/// An ssh2 error means "would block" exactly when it carries the session
/// code `LIBSSH2_ERROR_EAGAIN`.
pub open spec fn code_means_would_block(code: Ssh2ErrorCode) -> bool {
    code == Ssh2ErrorCode::Session(LIBSSH2_ERROR_EAGAIN)
}

/// Whether an ssh2 error code says that the call would have blocked.
pub fn ssh2_code_is_would_block(code: Ssh2ErrorCode) -> (b: bool)
    ensures
        b == code_means_would_block(code),
        b <==> (code matches Ssh2ErrorCode::Session(c) && c == -37i32),
{
    match code {
        Ssh2ErrorCode::Session(c) => c == LIBSSH2_ERROR_EAGAIN,
        Ssh2ErrorCode::Sftp(_) => false,
    }
}

#[verifier::external_type_specification]
#[verifier::external_body]
pub struct ExSession(ssh2::Session);

#[verifier::external_type_specification]
#[verifier::external_body]
pub struct ExSsh2Error(ssh2::Error);

#[verifier::external_type_specification]
#[verifier::external_body]
pub struct ExIoError(std::io::Error);

/// Calls `ssh2::Session::block_directions`, which asks libssh2 which socket
/// directions the session is currently blocked on, and names the answer.
/// The answer depends on the session's live state, so nothing is stated of
/// it beyond its type.
#[verifier::external_body]
pub(crate) fn session_block_directions(sess: &ssh2::Session) -> (d: Directions) {
    match sess.block_directions() {
        ssh2::BlockDirections::None => Directions::Neither,
        ssh2::BlockDirections::Inbound => Directions::Inbound,
        ssh2::BlockDirections::Outbound => Directions::Outbound,
        ssh2::BlockDirections::Both => Directions::Both,
    }
}

/// The code an ssh2 error was made with, as `ssh2::Error::code` hands it
/// back: a field of the error, so a function of the error alone.
pub uninterp spec fn ssh2_error_code_of(err: ssh2::Error) -> Ssh2ErrorCode;

/// Calls `ssh2::Error::code`, which hands back the code the error was made
/// with; the contract names that code `ssh2_error_code_of`.
#[verifier::external_body]
fn ssh2_error_code(err: &ssh2::Error) -> (code: Ssh2ErrorCode)
    ensures
        code == ssh2_error_code_of(*err),
{
    match err.code() {
        ssh2::ErrorCode::Session(c) => Ssh2ErrorCode::Session(c),
        ssh2::ErrorCode::SFTP(c) => Ssh2ErrorCode::Sftp(c),
    }
}

/// Whether an I/O error's kind, as `std::io::Error::kind` hands it back, is
/// `ErrorKind::WouldBlock`: the kind is stored in the error or decoded from
/// its OS code by a table fixed for the target, so a function of the error.
pub uninterp spec fn io_error_kind_would_block_of(err: std::io::Error) -> bool;

/// Calls `std::io::Error::kind` and tells whether the kind is
/// `ErrorKind::WouldBlock`; the contract names that answer
/// `io_error_kind_would_block_of`.
#[verifier::external_body]
fn io_error_kind_is_would_block(err: &std::io::Error) -> (b: bool)
    ensures
        b == io_error_kind_would_block_of(*err),
{
    match err.kind() {
        std::io::ErrorKind::WouldBlock => true,
        _ => false,
    }
}

/// Whether an ssh2 error only says that the call would have blocked: its
/// code is the session code `LIBSSH2_ERROR_EAGAIN`.
pub fn ssh2_error_is_would_block(err: &ssh2::Error) -> (b: bool)
    ensures
        b == code_means_would_block(ssh2_error_code_of(*err)),
{
    let code = ssh2_error_code(err);
    ssh2_code_is_would_block(code)
}

/// How an attempt that returned `r`, with ssh2's error type, ended.
pub fn ssh2_attempt_outcome<R>(r: &Result<R, ssh2::Error>) -> (o: OpOutcome)
    ensures
        (r is Ok) <==> o == OpOutcome::Done,
        (r is Err) ==> (o == OpOutcome::WouldBlock <==> code_means_would_block(ssh2_error_code_of(r->Err_0))),
{
    match r {
        Ok(_) => OpOutcome::Done,
        Err(err) => if ssh2_error_is_would_block(err) {
            OpOutcome::WouldBlock
        } else {
            OpOutcome::Failed
        },
    }
}

/// How an attempt that returned `r`, with std's I/O error type, ended: an
/// error of kind `WouldBlock` means the attempt would have blocked.
pub fn io_attempt_outcome<R>(r: &Result<R, std::io::Error>) -> (o: OpOutcome)
    ensures
        (r is Ok) <==> o == OpOutcome::Done,
        (r is Err) ==> (o == OpOutcome::WouldBlock <==> io_error_kind_would_block_of(r->Err_0)),
{
    match r {
        Ok(_) => OpOutcome::Done,
        Err(err) => if io_error_kind_is_would_block(err) {
            OpOutcome::WouldBlock
        } else {
            OpOutcome::Failed
        },
    }
}

/// Only libssh2's "try again" session code (-37) means that a call would
/// block: every other session code, and every SFTP code, is a real failure.
pub proof fn lemma_only_eagain_would_block(code: Ssh2ErrorCode)
    ensures
        code_means_would_block(code) <==> (code matches Ssh2ErrorCode::Session(c) && c == -37i32),
        code matches Ssh2ErrorCode::Sftp(_) ==> !code_means_would_block(code),
{
}

} // verus!

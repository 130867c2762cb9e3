//! Decision logic of an SSH transport driven over non-blocking sockets.
//!
//! Every call that libssh2 may refuse with "would block" is run in rounds:
//! try the operation, ask the session which socket directions it is blocked
//! on, wait for exactly that readiness, try again.  The rounds are described
//! here as state machines over plain events; the runtime that performs the
//! waiting feeds the machines and carries out the actions they return.
pub mod blocking;
pub mod pause;
pub mod poll_x_with;
pub mod x_with;

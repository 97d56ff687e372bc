//! Window messages and the platform message codes the library recognizes.

use vstd::prelude::*;

verus! {

/// Message code delivered synchronously while the native window is being
/// created, before the creation call returns. Its payload carries the opaque
/// creation parameter supplied by the caller.
pub const CREATE_NOTICE: u32 = 0x0081;

/// Message code delivered when the window is being torn down. The host
/// responds by posting the termination signal.
pub const CLOSE_NOTICE: u32 = 0x0002;

/// Message code of the termination signal a host posts to its thread's queue
/// on [`CLOSE_NOTICE`]; the message loop stops when it pulls this code.
pub const TERMINATION_SIGNAL: u32 = 0x0012;

/// One message as pulled from a thread's queue: the native window it is
/// addressed to, a 32-bit code, and two opaque machine-word parameters.
///
/// For a [`CREATE_NOTICE`], `lparam` carries the opaque creation parameter
/// (the address the creating caller lent to the window system).
#[derive(Clone, Copy, Debug, PartialEq, Eq, Structural)]
pub struct WindowMessage {
    pub window: usize,
    pub code: u32,
    pub wparam: usize,
    pub lparam: usize,
}

} // verus!

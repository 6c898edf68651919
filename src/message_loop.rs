//! The decisions of the blocking message loop.
use vstd::prelude::*;

verus! {

/// Message code of the quit message.
pub const WM_QUIT: u32 = 0x0012;

/// What the loop does with one retrieval.
#[derive(Clone, Copy, Debug, PartialEq, Eq, Structural)]
pub enum LoopAction {
    /// End the process with this exit code.
    Exit(i32),
    /// Translate the message and dispatch it to its window.
    Dispatch,
    /// Retrieval failed: stop with a diagnostic.
    Abort,
}

/// The exit code carried by a quit message's word parameter: its low 32
/// bits read as a signed integer.
pub open spec fn exit_code_of(wparam: usize) -> i32 {
    let low = wparam as int % 0x1_0000_0000;
    (if low >= 0x8000_0000 { low - 0x1_0000_0000 } else { low }) as i32
}

/// Reads the exit code out of a quit message's word parameter.
pub fn exit_code(wparam: usize) -> (r: i32)
    ensures
        r == exit_code_of(wparam),
{
    let low: u64 = (wparam as u64) % 0x1_0000_0000;
    if low >= 0x8000_0000 {
        (low as i64 - 0x1_0000_0000) as i32
    } else {
        low as i32
    }
}

/// The action for a retrieval that returned `status` and filled in a
/// message with code `msg` and word parameter `wparam`.
pub open spec fn loop_action_of(status: i32, msg: u32, wparam: usize) -> LoopAction {
    if status < 0 {
        LoopAction::Abort
    } else if msg == WM_QUIT {
        LoopAction::Exit(exit_code_of(wparam))
    } else {
        LoopAction::Dispatch
    }
}

/// Decides one turn of the message loop: a failed retrieval aborts, a quit
/// message ends the process with its exit code, anything else is
/// dispatched.
pub fn next_action(status: i32, msg: u32, wparam: usize) -> (r: LoopAction)
    ensures
        r == loop_action_of(status, msg, wparam),
{
    if status < 0 {
        LoopAction::Abort
    } else if msg == WM_QUIT {
        LoopAction::Exit(exit_code(wparam))
    } else {
        LoopAction::Dispatch
    }
}

/// A quit message posted with exit code `n` ends the process with status
/// `n`: its word parameter carries `n` in its low 32 bits.
pub proof fn lemma_quit_exit_code(status: i32, n: i32, wparam: usize)
    requires
        status >= 0,
        wparam as int % 0x1_0000_0000 == n as int % 0x1_0000_0000,
    ensures
        loop_action_of(status, WM_QUIT, wparam) == LoopAction::Exit(n),
{
    if n < 0 {
        assert(n as int % 0x1_0000_0000 == n + 0x1_0000_0000);
    } else {
        assert(n as int % 0x1_0000_0000 == n);
    }
}

} // verus!

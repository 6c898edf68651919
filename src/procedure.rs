//! The window's message procedure: which work each delivered message asks
//! for, and what is replied or released once that work has been done.
use vstd::prelude::*;

verus! {

/// Message code of the destroy notification.
pub const WM_DESTROY: u32 = 0x0002;

/// Message code of a paint request.
pub const WM_PAINT: u32 = 0x000F;

/// Message code of a close request.
pub const WM_CLOSE: u32 = 0x0010;

/// Message code of the pre-creation setup message.
pub const WM_NCCREATE: u32 = 0x0081;

/// System color index of the window background.
pub const COLOR_WINDOW: i32 = 5;

/// The work that a delivered message asks of the procedure.
#[derive(Clone, Copy, Debug, PartialEq, Eq, Structural)]
pub enum Handling {
    /// Read the creation parameters, set the title, store the payload pointer.
    Setup,
    /// Ask for the window to be destroyed, then reply zero.
    Close,
    /// Read the payload pointer back, release it, post a quit request.
    Teardown,
    /// Run a paint cycle that fills the invalid region, then reply zero.
    Paint,
    /// Hand the message to the default window procedure and reply its result.
    Default,
}

/// The handling that a message code calls for.
pub open spec fn handling_of(msg: u32) -> Handling {
    if msg == WM_NCCREATE {
        Handling::Setup
    } else if msg == WM_CLOSE {
        Handling::Close
    } else if msg == WM_DESTROY {
        Handling::Teardown
    } else if msg == WM_PAINT {
        Handling::Paint
    } else {
        Handling::Default
    }
}

/// Picks the handling for message code `msg`.
pub fn dispatch(msg: u32) -> (r: Handling)
    ensures
        r == handling_of(msg),
{
    if msg == WM_NCCREATE {
        Handling::Setup
    } else if msg == WM_CLOSE {
        Handling::Close
    } else if msg == WM_DESTROY {
        Handling::Teardown
    } else if msg == WM_PAINT {
        Handling::Paint
    } else {
        Handling::Default
    }
}

/// Reading a window's user-data slot, or writing it, returned `out`, and
/// the thread's error state, cleared before the call, read `last_error`
/// after it. A zero `out` is a failure only where the error state was set.
pub open spec fn slot_result(out: isize, last_error: u32) -> Result<isize, u32> {
    if out == 0 && last_error != 0 {
        Err(last_error)
    } else {
        Ok(out)
    }
}

/// Tells a slot value that was legitimately zero from a failed slot access.
pub fn userdata_outcome(out: isize, last_error: u32) -> (r: Result<isize, u32>)
    ensures
        r == slot_result(out, last_error),
{
    if out == 0 && last_error != 0 {
        Err(last_error)
    } else {
        Ok(out)
    }
}

/// The reply to the pre-creation message: one where the creation
/// parameters were there and the payload pointer was stored, else zero,
/// which aborts window creation.
pub open spec fn setup_reply_of(has_params: bool, stored: Result<isize, u32>) -> isize {
    if has_params && stored is Ok {
        1
    } else {
        0
    }
}

/// Computes the reply to the pre-creation message.
pub fn setup_reply(has_params: bool, stored: &Result<isize, u32>) -> (r: isize)
    ensures
        r == setup_reply_of(has_params, *stored),
{
    if has_params && stored.is_ok() {
        1
    } else {
        0
    }
}

/// What the destroy notification does once the slot has been read.
#[derive(Clone, Copy, Debug, PartialEq, Eq, Structural)]
pub struct Teardown {
    /// The payload pointer to release, if any.
    pub release: Option<isize>,
    /// Whether the slot is cleared after the release, so that nothing can
    /// release the same payload again.
    pub clear_slot: bool,
    /// An error code to report, where reading the slot failed.
    pub report: Option<u32>,
    /// The exit code of the quit request that is posted.
    pub quit_code: i32,
}

/// The teardown for a slot read that gave `read`.
pub open spec fn teardown_of(read: Result<isize, u32>) -> Teardown {
    match read {
        Ok(p) => Teardown {
            release: if p != 0 { Some(p) } else { None },
            clear_slot: p != 0,
            report: None,
            quit_code: 0,
        },
        Err(e) => Teardown { release: None, clear_slot: false, report: Some(e), quit_code: 0 },
    }
}

/// Plans the destroy notification: release a non-null payload pointer
/// exactly once and clear its slot, report a failed read, and always post
/// a quit request with exit code zero.
pub fn teardown(read: Result<isize, u32>) -> (r: Teardown)
    ensures
        r == teardown_of(read),
{
    match read {
        Ok(p) => {
            if p != 0 {
                Teardown { release: Some(p), clear_slot: true, report: None, quit_code: 0 }
            } else {
                Teardown { release: None, clear_slot: false, report: None, quit_code: 0 }
            }
        },
        Err(e) => Teardown { release: None, clear_slot: false, report: Some(e), quit_code: 0 },
    }
}

/// The brush handle value that stands for system color `color`: the color
/// index plus one.
pub fn sys_color_brush(color: i32) -> (r: isize)
    requires
        0 <= color < i32::MAX,
    ensures
        r == color + 1,
{
    (color + 1) as isize
}

/// The outcome of a fill call that returned `ret`: failure exactly when it
/// returned zero.
pub fn fill_outcome(ret: i32) -> (r: Result<(), ()>)
    ensures
        r is Ok <==> ret != 0,
{
    if ret != 0 {
        Ok(())
    } else {
        Err(())
    }
}

/// The reply to a paint request: zero, whatever the fill did.
pub open spec fn paint_reply_of(fill: Result<(), ()>) -> isize {
    0
}

/// Computes the reply to a paint request. A failed fill is only reported.
pub fn paint_reply(fill: &Result<(), ()>) -> (r: isize)
    ensures
        r == paint_reply_of(*fill),
{
    0
}

/// Releasing happens only for a pointer that was stored at creation: a
/// stored non-null pointer read back is released once and its slot
/// cleared; a slot read as empty (never filled, or cleared by an earlier
/// teardown) releases nothing, nor does a failed read.
pub proof fn lemma_release_once(p: isize, e: u32)
    requires
        p != 0,
    ensures
        teardown_of(slot_result(p, 0)).release == Some(p),
        teardown_of(slot_result(p, 0)).clear_slot,
        teardown_of(slot_result(0, 0)).release is None,
        teardown_of(Err(e)).release is None,
{
}

/// A value stored in the slot and read back with the error state clear is
/// returned as it was stored, zero included; a zero read with the error
/// state set is a failure, so the two never look alike.
pub proof fn lemma_userdata_round_trip(v: isize, e: u32)
    requires
        e != 0,
    ensures
        slot_result(v, 0) == Ok::<isize, u32>(v),
        slot_result(0, e) == Err::<isize, u32>(e),
        slot_result(0, 0) != slot_result(0, e),
{
}

/// The reply to a paint request does not depend on whether the fill failed.
pub proof fn lemma_paint_reply_ignores_fill(a: Result<(), ()>, b: Result<(), ()>)
    ensures
        paint_reply_of(a) == paint_reply_of(b),
{
}

} // verus!

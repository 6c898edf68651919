//! Creation of the single top-level window: the parameters handed to the
//! windowing subsystem and the order in which setup proceeds.
use vstd::prelude::*;
use crate::strings::{str_to_wstr, wide_of};

verus! {

/// Position or size value that lets the windowing subsystem choose.
pub const CW_USEDEFAULT: i32 = -2147483648;

/// Extended style that puts the vertical scrollbar on the right.
pub const WS_EX_RIGHTSCROLLBAR: u32 = 0;

/// The standard overlapped window style: caption, system menu, sizing frame
/// and minimize and maximize boxes.
pub const WS_OVERLAPPEDWINDOW: u32 = 0x00CF0000;

/// Show command that activates the window at its current size and position.
pub const SW_SHOW: i32 = 5;

/// The value of the payload placed in each new window's user-data slot.
pub const INITIAL_PAYLOAD: i32 = 5;

/// Parameters of one window-creation request.
#[derive(Clone, Copy, Debug, PartialEq, Eq, Structural)]
pub struct CreateParams {
    pub ex_style: u32,
    pub style: u32,
    pub x: i32,
    pub y: i32,
    pub width: i32,
    pub height: i32,
    pub show_cmd: i32,
    pub payload: i32,
}

/// The width requested: the given one, else a subsystem-chosen one.
pub open spec fn width_of(width: Option<i32>) -> i32 {
    match width {
        Some(w) => w,
        None => CW_USEDEFAULT,
    }
}

/// The height requested: the given one, else zero.
pub open spec fn height_of(height: Option<i32>) -> i32 {
    match height {
        Some(h) => h,
        None => 0,
    }
}

/// The creation request for a window of the given optional size.
pub open spec fn params_of(width: Option<i32>, height: Option<i32>) -> CreateParams {
    CreateParams {
        ex_style: WS_EX_RIGHTSCROLLBAR,
        style: WS_OVERLAPPEDWINDOW,
        x: CW_USEDEFAULT,
        y: 0,
        width: width_of(width),
        height: height_of(height),
        show_cmd: SW_SHOW,
        payload: INITIAL_PAYLOAD,
    }
}

/// Builds the creation request: default horizontal position, top edge at
/// zero, and a missing height taken as zero while a missing width is left
/// to the windowing subsystem.
pub fn create_params(width: Option<i32>, height: Option<i32>) -> (r: CreateParams)
    ensures
        r == params_of(width, height),
{
    let w: i32 = match width {
        Some(w) => w,
        None => CW_USEDEFAULT,
    };
    let h: i32 = match height {
        Some(h) => h,
        None => 0,
    };
    CreateParams {
        ex_style: WS_EX_RIGHTSCROLLBAR,
        style: WS_OVERLAPPEDWINDOW,
        x: CW_USEDEFAULT,
        y: 0,
        width: w,
        height: h,
        show_cmd: SW_SHOW,
        payload: INITIAL_PAYLOAD,
    }
}

/// Why window setup stopped.
#[derive(Clone, Copy, Debug, PartialEq, Eq, Structural)]
pub enum SetupError {
    /// The default arrow cursor could not be loaded.
    CursorUnavailable,
    /// Class registration was refused, with the reported error code.
    RegisterFailed(u32),
    /// Window creation returned no handle.
    CreateFailed,
    /// Showing the window returned a nonzero status, with the reported error code.
    ShowFailed(u32),
    /// The immediate redraw request failed.
    UpdateFailed,
    /// An outcome arrived for a step other than the one pending.
    OutOfOrder,
}

impl SetupError {
    /// Whether the error ends the process rather than being returned to the caller.
    pub open spec fn spec_is_fatal(&self) -> bool {
        self is CreateFailed || self is ShowFailed || self is UpdateFailed
    }

    /// Whether the error ends the process rather than being returned to the caller.
    #[verifier::when_used_as_spec(spec_is_fatal)]
    pub fn is_fatal(&self) -> (r: bool)
        ensures
            r == self.spec_is_fatal(),
    {
        match self {
            SetupError::CreateFailed | SetupError::ShowFailed(_) | SetupError::UpdateFailed => true,
            _ => false,
        }
    }
}

/// The step of window setup that is due next.
#[derive(Clone, Copy, Debug, PartialEq, Eq, Structural)]
pub enum SetupPhase {
    LoadCursor,
    Register,
    Create,
    Show,
    Update,
    Ready,
    Failed(SetupError),
}

/// What the windowing subsystem answered to the pending step.
#[derive(Clone, Copy, Debug, PartialEq, Eq, Structural)]
pub enum SetupEvent {
    /// The cursor load returned a handle; `valid` tells whether it is usable.
    CursorLoaded { valid: bool },
    /// Class registration returned `atom`; `last_error` was read right after.
    Registered { atom: u16, last_error: u32 },
    /// Window creation returned a handle, or none.
    Created { has_handle: bool },
    /// Showing the window returned `status`; `last_error` was read right after.
    Shown { status: i32, last_error: u32 },
    /// The redraw request returned `ok`.
    Updated { ok: bool },
}

/// The phase that follows `phase` once `event` has been observed.
pub open spec fn next_phase(phase: SetupPhase, event: SetupEvent) -> SetupPhase {
    match (phase, event) {
        (SetupPhase::LoadCursor, SetupEvent::CursorLoaded { valid }) =>
            if valid { SetupPhase::Register } else { SetupPhase::Failed(SetupError::CursorUnavailable) },
        (SetupPhase::Register, SetupEvent::Registered { atom, last_error }) =>
            if atom != 0 { SetupPhase::Create } else { SetupPhase::Failed(SetupError::RegisterFailed(last_error)) },
        (SetupPhase::Create, SetupEvent::Created { has_handle }) =>
            if has_handle { SetupPhase::Show } else { SetupPhase::Failed(SetupError::CreateFailed) },
        (SetupPhase::Show, SetupEvent::Shown { status, last_error }) =>
            if status == 0 { SetupPhase::Update } else { SetupPhase::Failed(SetupError::ShowFailed(last_error)) },
        (SetupPhase::Update, SetupEvent::Updated { ok }) =>
            if ok { SetupPhase::Ready } else { SetupPhase::Failed(SetupError::UpdateFailed) },
        (SetupPhase::Failed(e), _) => SetupPhase::Failed(e),
        _ => SetupPhase::Failed(SetupError::OutOfOrder),
    }
}

/// One window of class `"window"`: the wide-character buffers and creation
/// request it is made from, and how far its setup has come. The buffers
/// live as long as the value, so the pointers taken from them stay valid
/// for every call that reads them.
pub struct WindowsWindow {
    pub class_name: Vec<u16>,
    pub title: Vec<u16>,
    pub params: CreateParams,
    pub phase: SetupPhase,
}

impl WindowsWindow {
    /// Prepares a window titled `title` of the given optional size; setup
    /// starts by loading the cursor for the class.
    pub fn new(title: &str, width: Option<i32>, height: Option<i32>) -> (r: WindowsWindow)
        ensures
            r.class_name@ == wide_of("window"@),
            r.title@ == wide_of(title@),
            r.params == params_of(width, height),
            r.phase == SetupPhase::LoadCursor,
    {
        WindowsWindow {
            class_name: str_to_wstr("window"),
            title: str_to_wstr(title),
            params: create_params(width, height),
            phase: SetupPhase::LoadCursor,
        }
    }

    /// Records the answer to the pending setup step. The result is the error
    /// that setup stopped with, if it stopped.
    pub fn advance(&mut self, event: SetupEvent) -> (r: Result<(), SetupError>)
        ensures
            final(self).phase == next_phase(old(self).phase, event),
            final(self).class_name == old(self).class_name,
            final(self).title == old(self).title,
            final(self).params == old(self).params,
            r == (match final(self).phase {
                SetupPhase::Failed(e) => Err(e),
                _ => Ok(()),
            }),
    {
        let next = match (self.phase, event) {
            (SetupPhase::LoadCursor, SetupEvent::CursorLoaded { valid }) =>
                if valid { SetupPhase::Register } else { SetupPhase::Failed(SetupError::CursorUnavailable) },
            (SetupPhase::Register, SetupEvent::Registered { atom, last_error }) =>
                if atom != 0 { SetupPhase::Create } else { SetupPhase::Failed(SetupError::RegisterFailed(last_error)) },
            (SetupPhase::Create, SetupEvent::Created { has_handle }) =>
                if has_handle { SetupPhase::Show } else { SetupPhase::Failed(SetupError::CreateFailed) },
            (SetupPhase::Show, SetupEvent::Shown { status, last_error }) =>
                if status == 0 { SetupPhase::Update } else { SetupPhase::Failed(SetupError::ShowFailed(last_error)) },
            (SetupPhase::Update, SetupEvent::Updated { ok }) =>
                if ok { SetupPhase::Ready } else { SetupPhase::Failed(SetupError::UpdateFailed) },
            (SetupPhase::Failed(e), _) => SetupPhase::Failed(e),
            _ => SetupPhase::Failed(SetupError::OutOfOrder),
        };
        self.phase = next;
        match next {
            SetupPhase::Failed(e) => Err(e),
            _ => Ok(()),
        }
    }

    /// Whether every setup step has succeeded.
    pub fn is_ready(&self) -> (r: bool)
        ensures
            r == (self.phase == SetupPhase::Ready),
    {
        match self.phase {
            SetupPhase::Ready => true,
            _ => false,
        }
    }
}

/// The phase reached from `phase` after observing `events` in order.
pub open spec fn run_setup(phase: SetupPhase, events: Seq<SetupEvent>) -> SetupPhase
    decreases events.len(),
{
    if events.len() == 0 {
        phase
    } else {
        run_setup(next_phase(phase, events[0]), events.skip(1))
    }
}

/// How many creation outcomes `events` holds: one per creation request,
/// each preceded by the allocation of one payload.
pub open spec fn creations(events: Seq<SetupEvent>) -> nat
    decreases events.len(),
{
    if events.len() == 0 {
        0
    } else {
        (if events[0] is Created { 1nat } else { 0nat }) + creations(events.skip(1))
    }
}

/// How many creation requests remain before setup is ready, from `phase`.
pub open spec fn creations_ahead(phase: SetupPhase) -> nat {
    match phase {
        SetupPhase::LoadCursor | SetupPhase::Register | SetupPhase::Create => 1,
        _ => 0,
    }
}

proof fn lemma_failed_stays(e: SetupError, events: Seq<SetupEvent>)
    ensures
        run_setup(SetupPhase::Failed(e), events) == SetupPhase::Failed(e),
    decreases events.len(),
{
    if events.len() > 0 {
        lemma_failed_stays(e, events.skip(1));
    }
}

proof fn lemma_creations_ahead(phase: SetupPhase, events: Seq<SetupEvent>)
    requires
        run_setup(phase, events) == SetupPhase::Ready,
    ensures
        creations(events) == creations_ahead(phase),
    decreases events.len(),
{
    if events.len() > 0 {
        let next = next_phase(phase, events[0]);
        if let SetupPhase::Failed(e) = next {
            lemma_failed_stays(e, events.skip(1));
        } else {
            lemma_creations_ahead(next, events.skip(1));
        }
    }
}

/// A window whose setup, started afresh, has become ready went through
/// exactly one creation request, and so exactly one payload allocation.
pub proof fn lemma_one_creation_per_window(events: Seq<SetupEvent>)
    requires
        run_setup(SetupPhase::LoadCursor, events) == SetupPhase::Ready,
    ensures
        creations(events) == 1,
{
    lemma_creations_ahead(SetupPhase::LoadCursor, events);
}

} // verus!

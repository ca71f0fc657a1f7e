//! The event hook: the single slot that tracks the installed system hook,
//! and the dispatch decisions its callbacks make. Every dispatch outcome
//! carries `forward: true` — the event is always handed on to the next
//! hook in the chain, whether or not the filter matched.
use vstd::prelude::*;
use crate::classes::{tooltip_class, tooltip_class_bytes};
use crate::geometry::{is_point_in_targets, spec_any_hit, ResolvedTarget};
use crate::mutator::TooltipState;
use crate::text::bytes_eq;

verus! {

/// Hook code announcing a window about to be created.
pub const HCBT_CREATEWND: i32 = 3;

/// Message number of a mouse movement.
pub const WM_MOUSEMOVE: u32 = 512;

/// Message number of a left button press.
pub const WM_LBUTTONDOWN: u32 = 513;

/// Message number of a right button press.
pub const WM_RBUTTONDOWN: u32 = 516;

/// Message number of a middle button press.
pub const WM_MBUTTONDOWN: u32 = 519;

/// Message number of a paint request.
pub const WM_PAINT: u32 = 15;

/// Message number of a timer expiry.
pub const WM_TIMER: u32 = 275;

/// Message number of a window being destroyed.
pub const WM_DESTROY: u32 = 2;

/// Message number of the quit signal.
pub const WM_QUIT: u32 = 18;

/// The single slot for the process's installed system hook. At most one
/// hook exists at any time: `Some(h)` holds the one live handle, `None`
/// means no hook is installed.
pub struct HookSlot {
    pub handle: Option<u64>,
}

impl HookSlot {
    pub open spec fn installed(self) -> bool {
        self.handle.is_some()
    }

    /// The empty slot: nothing installed.
    pub fn new() -> (s: Self)
        ensures
            s.handle.is_none(),
    {
        HookSlot { handle: None }
    }

    /// The idempotency gate of installation: true exactly when no hook is
    /// installed, so installing again while one is live is a no-op.
    pub fn need_install(&self) -> (go: bool)
        ensures
            go == !self.installed(),
    {
        match self.handle {
            None => true,
            Some(_) => false,
        }
    }

    /// Record the outcome of the one OS install call: a non-null handle
    /// fills the slot, a null handle (installation failed) leaves it
    /// empty.
    pub fn confirm_install(&mut self, os_handle: u64) -> (ok: bool)
        requires
            !old(self).installed(),
        ensures
            ok == (os_handle != 0),
            os_handle != 0 ==> final(self).handle == Some(os_handle),
            os_handle == 0 ==> final(self).handle.is_none(),
    {
        if os_handle != 0 {
            self.handle = Some(os_handle);
            true
        } else {
            false
        }
    }

    /// The handle an uninstall call must be made with, if any.
    pub fn installed_handle(&self) -> (h: Option<u64>)
        ensures
            h == self.handle,
    {
        self.handle
    }

    /// Record the outcome of an OS uninstall call: success empties the
    /// slot, failure keeps tracking the still-live hook.
    pub fn confirm_uninstall(&mut self, os_ok: bool)
        requires
            old(self).installed(),
        ensures
            os_ok ==> final(self).handle.is_none(),
            !os_ok ==> final(self).handle == old(self).handle,
    {
        if os_ok {
            self.handle = None;
        }
    }

    /// The stop path: hand out the handle (the caller attempts the OS
    /// uninstall with it) and clear the slot unconditionally, so that a
    /// stopping process never keeps a record of a dangling hook.
    /// Idempotent — a second call returns `None`.
    pub fn take_uninstall(&mut self) -> (h: Option<u64>)
        ensures
            final(self).handle.is_none(),
            h == old(self).handle,
    {
        let h = self.handle;
        self.handle = None;
        h
    }
}

/// Outcome of the window-creation filter: whether a deferred tooltip
/// check is scheduled, and that the event is forwarded on.
pub struct CbtDispatch {
    pub forward: bool,
    pub schedule_check: bool,
}

/// The window-creation filter: a deferred tooltip check is scheduled
/// exactly for a creation notification (`HCBT_CREATEWND`) whose new
/// window is of the native tooltip class. Whatever the decision, the
/// event is forwarded to the next hook in the chain, exactly once.
pub fn on_window_event(code: i32, created_class: &[u8]) -> (r: CbtDispatch)
    ensures
        r.forward,
        r.schedule_check == (code == HCBT_CREATEWND && created_class@ == tooltip_class()),
        created_class@ != tooltip_class() ==> !r.schedule_check,
{
    let schedule = code == HCBT_CREATEWND && bytes_eq(created_class, tooltip_class_bytes());
    CbtDispatch { forward: true, schedule_check: schedule }
}

/// What the mouse filter decides to do besides forwarding.
#[derive(Clone, Copy, PartialEq, Eq, Structural, Debug)]
pub enum MouseAction {
    /// Nothing: the event is outside this library's concern.
    Idle,
    /// The cursor entered a target while no tooltip shows: schedule the
    /// debounced show at these coordinates.
    ConsiderShow { x: i32, y: i32 },
    /// The cursor left the targets, or a button went down: hide.
    Hide,
}

/// Outcome of the mouse filter.
pub struct MouseDispatch {
    pub forward: bool,
    pub action: MouseAction,
}

/// The mouse filter's decision: negative hook codes are passed through
/// untouched; a movement inside a target shows (once) or keeps the
/// tooltip; a movement outside, or any button press, hides it.
pub open spec fn spec_mouse_action(
    code: int,
    msg: u32,
    x: int,
    y: int,
    ts: Seq<ResolvedTarget>,
    visible: bool,
) -> MouseAction {
    if code < 0 {
        MouseAction::Idle
    } else if msg == WM_MOUSEMOVE {
        if spec_any_hit(x, y, ts) {
            if visible {
                MouseAction::Idle
            } else {
                MouseAction::ConsiderShow { x: x as i32, y: y as i32 }
            }
        } else {
            MouseAction::Hide
        }
    } else if msg == WM_LBUTTONDOWN || msg == WM_RBUTTONDOWN || msg == WM_MBUTTONDOWN {
        MouseAction::Hide
    } else {
        MouseAction::Idle
    }
}

/// The mouse filter: decide on one mouse event against the current
/// targets. Whatever the decision, the event is forwarded to the next
/// hook in the chain, exactly once.
pub fn on_mouse_event(
    code: i32,
    msg: u32,
    x: i32,
    y: i32,
    targets: &Vec<ResolvedTarget>,
    visible: bool,
) -> (r: MouseDispatch)
    ensures
        r.forward,
        r.action == spec_mouse_action(code as int, msg, x as int, y as int, targets@, visible),
{
    let action = if code < 0 {
        MouseAction::Idle
    } else if msg == WM_MOUSEMOVE {
        if is_point_in_targets(x, y, targets) {
            if visible {
                MouseAction::Idle
            } else {
                MouseAction::ConsiderShow { x, y }
            }
        } else {
            MouseAction::Hide
        }
    } else if msg == WM_LBUTTONDOWN || msg == WM_RBUTTONDOWN || msg == WM_MBUTTONDOWN {
        MouseAction::Hide
    } else {
        MouseAction::Idle
    };
    MouseDispatch { forward: true, action }
}

/// The debounced re-check a deferred hover worker performs after its
/// delay, against freshly resolved bounds: show only when the cursor is
/// still inside a target and no overlay has appeared meanwhile.
pub fn confirm_hover(x: i32, y: i32, targets: &Vec<ResolvedTarget>, state: &TooltipState) -> (show: bool)
    ensures
        show == (spec_any_hit(x as int, y as int, targets@) && !state.visible
            && state.owned_window.is_none()),
{
    is_point_in_targets(x, y, targets) && state.may_show()
}

/// What the overlay window does with one window message: paint itself,
/// hide on its timer, acknowledge its destruction, or pass the message to
/// the default handler.
#[derive(Clone, Copy, PartialEq, Eq, Structural, Debug)]
pub enum WindowMsgAction {
    Paint,
    HideTooltip,
    Acknowledge,
    PassOn,
}

/// Decide what the overlay's window procedure does with a message.
pub fn tooltip_window_message_action(msg: u32) -> (a: WindowMsgAction)
    ensures
        msg == WM_PAINT ==> a == WindowMsgAction::Paint,
        msg == WM_TIMER ==> a == WindowMsgAction::HideTooltip,
        msg == WM_DESTROY ==> a == WindowMsgAction::Acknowledge,
        (msg != WM_PAINT && msg != WM_TIMER && msg != WM_DESTROY) ==> a == WindowMsgAction::PassOn,
{
    if msg == WM_PAINT {
        WindowMsgAction::Paint
    } else if msg == WM_TIMER {
        WindowMsgAction::HideTooltip
    } else if msg == WM_DESTROY {
        WindowMsgAction::Acknowledge
    } else {
        WindowMsgAction::PassOn
    }
}

/// Whether the event pump keeps running after polling one message: it
/// stops exactly when a message arrived and it was the quit signal.
pub fn pump_continue(got_message: bool, msg: u32) -> (cont: bool)
    ensures
        cont == !(got_message && msg == WM_QUIT),
{
    !(got_message && msg == WM_QUIT)
}

} // verus!

//! The tooltip mutator: the state it owns, the cooldown gate, and the
//! decision of whether and how a native tooltip's text is rewritten.
use vstd::prelude::*;
use crate::classes::{tooltip_class, tooltip_class_bytes};
use crate::compose::{augment_tooltip_text, spec_augmented_text, spec_uptime_units};
use crate::geometry::Rect;
use crate::text::{
    bytes_eq, contains_byte, contains_dec_digit, contains_sub, has_byte, has_dec_digit, has_sub,
};

verus! {

/// Milliseconds that must elapse between two tooltip mutations.
pub const COOLDOWN_MS: u64 = 500;

/// A mutation request is allowed only when no update has happened yet, or
/// at least `COOLDOWN_MS` milliseconds have passed since the last one.
pub open spec fn cooldown_allows(last: Option<u64>, now: u64) -> bool {
    match last {
        None => true,
        Some(t) => now >= t + COOLDOWN_MS,
    }
}

/// State owned by the tooltip mutator: whether its own overlay window is
/// showing, that window's handle, and when the last successful mutation
/// happened (a boot-relative millisecond timestamp).
///
/// Well-formed states tie the two overlay fields together, and the
/// timestamp only ever advances.
pub struct TooltipState {
    pub visible: bool,
    pub owned_window: Option<u64>,
    pub last_update_ms: Option<u64>,
}

impl TooltipState {
    /// The overlay is marked visible exactly while a window is owned.
    pub open spec fn wf(self) -> bool {
        self.visible == self.owned_window.is_some()
    }

    /// The state before anything has been shown or mutated.
    pub fn new() -> (s: Self)
        ensures
            s.wf(),
            !s.visible,
            s.owned_window.is_none(),
            s.last_update_ms.is_none(),
    {
        TooltipState { visible: false, owned_window: None, last_update_ms: None }
    }

    /// The cooldown gate: may a mutation requested at `now_ms` proceed?
    pub fn should_update_tooltip(&self, now_ms: u64) -> (r: bool)
        ensures
            r == cooldown_allows(self.last_update_ms, now_ms),
    {
        match self.last_update_ms {
            None => true,
            Some(t) => now_ms >= t && now_ms - t >= COOLDOWN_MS,
        }
    }

    /// Record a successful mutation at `now_ms`. The timestamp never moves
    /// backwards: callers time-stamp with the same monotonic clock that
    /// produced the previous value.
    pub fn mark_tooltip_updated(&mut self, now_ms: u64)
        requires
            match old(self).last_update_ms {
                None => true,
                Some(t) => t <= now_ms,
            },
        ensures
            final(self).last_update_ms == Some(now_ms),
            final(self).visible == old(self).visible,
            final(self).owned_window == old(self).owned_window,
    {
        self.last_update_ms = Some(now_ms);
    }

    /// Check-then-act gate for showing the overlay: true exactly when no
    /// overlay is showing, so a creation may proceed.
    pub fn may_show(&self) -> (go: bool)
        ensures
            go == (!self.visible && self.owned_window.is_none()),
    {
        !self.visible && self.owned_window.is_none()
    }

    /// Record that the overlay window `handle` was created and shown.
    pub fn confirm_shown(&mut self, handle: u64)
        requires
            !old(self).visible,
            old(self).owned_window.is_none(),
            handle != 0,
        ensures
            final(self).wf(),
            final(self).visible,
            final(self).owned_window == Some(handle),
            final(self).last_update_ms == old(self).last_update_ms,
    {
        self.visible = true;
        self.owned_window = Some(handle);
    }

    /// Hide the overlay: clear the state and hand back the window handle
    /// to destroy, if one was owned. Idempotent — a second call returns
    /// `None` and changes nothing.
    pub fn take_hide(&mut self) -> (h: Option<u64>)
        ensures
            final(self).wf(),
            !final(self).visible,
            final(self).owned_window.is_none(),
            final(self).last_update_ms == old(self).last_update_ms,
            h == old(self).owned_window,
    {
        let h = self.owned_window;
        self.owned_window = None;
        self.visible = false;
        h
    }
}

/// Text that looks like a time or date string: it has a colon, an `AM` or
/// `PM` marker, a slash, or any decimal digit. Only such tooltips are
/// rewritten, so unrelated tooltips are never corrupted.
pub open spec fn time_markerish(t: Seq<u8>) -> bool {
    ||| has_byte(t, ':' as u8)
    ||| has_sub(t, seq!['A' as u8, 'M' as u8])
    ||| has_sub(t, seq!['P' as u8, 'M' as u8])
    ||| has_byte(t, '/' as u8)
    ||| has_dec_digit(t)
}

/// Decide whether `t` looks like a time or date string.
pub fn looks_like_time_text(t: &[u8]) -> (r: bool)
    ensures
        r == time_markerish(t@),
{
    let mut am: Vec<u8> = Vec::new();
    am.push('A' as u8);
    am.push('M' as u8);
    let mut pm: Vec<u8> = Vec::new();
    pm.push('P' as u8);
    pm.push('M' as u8);
    proof {
        assert(am@ =~= seq!['A' as u8, 'M' as u8]);
        assert(pm@ =~= seq!['P' as u8, 'M' as u8]);
    }
    contains_byte(t, ':' as u8) || contains_sub(t, am.as_slice()) || contains_sub(t, pm.as_slice())
        || contains_byte(t, '/' as u8) || contains_dec_digit(t)
}

/// A tooltip window sits in the taskbar area when its top edge lies within
/// 200 pixels of the bottom of the screen; failed bounds count as outside.
pub open spec fn in_taskbar_band(bounds: Option<Rect>, screen_h: int) -> bool {
    match bounds {
        None => false,
        Some(r) => r.top > screen_h - 200,
    }
}

/// Every condition under which a native tooltip's text is rewritten: the
/// cooldown has passed, the window is of the native tooltip class, it sits
/// in the taskbar area, and its current text is non-empty and looks like a
/// time or date string.
pub open spec fn mutation_allowed(
    state: TooltipState,
    now: u64,
    class: Seq<u8>,
    bounds: Option<Rect>,
    screen_h: int,
    text: Seq<u8>,
) -> bool {
    &&& cooldown_allows(state.last_update_ms, now)
    &&& class == tooltip_class()
    &&& in_taskbar_band(bounds, screen_h)
    &&& text.len() > 0
    &&& time_markerish(text)
}

impl TooltipState {
    /// The mutation decision for one native tooltip: `Some` with the full
    /// replacement text exactly when every gate passes, `None` otherwise
    /// (the request is dropped without side effects). A stale window whose
    /// bounds query failed is never mutated.
    pub fn plan_tooltip_mutation(
        &self,
        now_ms: u64,
        class_name: &[u8],
        bounds: &Option<Rect>,
        screen_height: i32,
        current_text: &[u8],
        uptime_ms: u64,
        week: u32,
    ) -> (r: Option<Vec<u8>>)
        ensures
            r.is_some() == mutation_allowed(
                *self,
                now_ms,
                class_name@,
                *bounds,
                screen_height as int,
                current_text@,
            ),
            match r {
                Some(v) => {
                    let (d, h, m) = spec_uptime_units(uptime_ms);
                    v@ == spec_augmented_text(current_text@, d as nat, h as nat, m as nat, week)
                },
                None => true,
            },
    {
        if !self.should_update_tooltip(now_ms) {
            return None;
        }
        if !bytes_eq(class_name, tooltip_class_bytes()) {
            return None;
        }
        let in_band = match bounds {
            None => false,
            Some(rc) => (rc.top as i64) > (screen_height as i64 - 200),
        };
        if !in_band {
            return None;
        }
        if current_text.len() == 0 || !looks_like_time_text(current_text) {
            return None;
        }
        Some(augment_tooltip_text(current_text, uptime_ms, week))
    }
}

} // verus!

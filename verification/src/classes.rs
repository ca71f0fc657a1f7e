//! Window class names and the classification table that maps a class name
//! to its hit-testing rule.
use vstd::prelude::*;
use vstd::string::StringSliceAdditionalSpecFns;
use crate::text::{ascii_bytes, bytes_eq, contains_sub, has_sub};

verus! {

/// Class name of the native tooltip windows the shell creates.
pub open spec fn tooltip_class() -> Seq<u8> {
    ascii_bytes("tooltips_class32"@)
}

/// Class name of the primary shell taskbar container.
pub open spec fn shell_tray_class() -> Seq<u8> {
    ascii_bytes("Shell_TrayWnd"@)
}

/// Class name of the secondary (multi-monitor) taskbar container.
pub open spec fn shell_secondary_tray_class() -> Seq<u8> {
    ascii_bytes("Shell_SecondaryTrayWnd"@)
}

/// Class name of the notification area inside a taskbar container.
pub open spec fn tray_notify_class() -> Seq<u8> {
    ascii_bytes("TrayNotifyWnd"@)
}

/// Clock-control class names, in the fixed priority order the locator
/// searches them.
pub open spec fn clock_control_classes() -> Seq<Seq<u8>> {
    seq![
        ascii_bytes("TrayClockWClass"@),
        ascii_bytes("ClockWClass"@),
        ascii_bytes("DigitalClockWClass"@),
    ]
}

/// Pattern that marks a class name as a clock control.
pub open spec fn clock_pattern() -> Seq<u8> {
    ascii_bytes("Clock"@)
}

/// Alternative pattern that marks a class name as a clock control.
pub open spec fn time_pattern() -> Seq<u8> {
    ascii_bytes("Time"@)
}

pub fn tooltip_class_bytes() -> (r: &'static [u8])
    ensures
        r@ == tooltip_class(),
{
    let s: &str = "tooltips_class32";
    proof {
        reveal_strlit("tooltips_class32");
        vstd::string::is_ascii_spec_bytes(s);
        assert(s.spec_bytes() =~= tooltip_class());
    }
    s.as_bytes()
}

pub fn shell_tray_class_bytes() -> (r: &'static [u8])
    ensures
        r@ == shell_tray_class(),
{
    let s: &str = "Shell_TrayWnd";
    proof {
        reveal_strlit("Shell_TrayWnd");
        vstd::string::is_ascii_spec_bytes(s);
        assert(s.spec_bytes() =~= shell_tray_class());
    }
    s.as_bytes()
}

pub fn shell_secondary_tray_class_bytes() -> (r: &'static [u8])
    ensures
        r@ == shell_secondary_tray_class(),
{
    let s: &str = "Shell_SecondaryTrayWnd";
    proof {
        reveal_strlit("Shell_SecondaryTrayWnd");
        vstd::string::is_ascii_spec_bytes(s);
        assert(s.spec_bytes() =~= shell_secondary_tray_class());
    }
    s.as_bytes()
}

pub fn tray_notify_class_bytes() -> (r: &'static [u8])
    ensures
        r@ == tray_notify_class(),
{
    let s: &str = "TrayNotifyWnd";
    proof {
        reveal_strlit("TrayNotifyWnd");
        vstd::string::is_ascii_spec_bytes(s);
        assert(s.spec_bytes() =~= tray_notify_class());
    }
    s.as_bytes()
}

pub fn clock_control_class_bytes(i: usize) -> (r: &'static [u8])
    requires
        i < clock_control_classes().len(),
    ensures
        r@ == clock_control_classes()[i as int],
{
    if i == 0 {
        let s: &str = "TrayClockWClass";
        proof {
            reveal_strlit("TrayClockWClass");
            vstd::string::is_ascii_spec_bytes(s);
            assert(s.spec_bytes() =~= clock_control_classes()[0]);
        }
        s.as_bytes()
    } else if i == 1 {
        let s: &str = "ClockWClass";
        proof {
            reveal_strlit("ClockWClass");
            vstd::string::is_ascii_spec_bytes(s);
            assert(s.spec_bytes() =~= clock_control_classes()[1]);
        }
        s.as_bytes()
    } else {
        let s: &str = "DigitalClockWClass";
        proof {
            reveal_strlit("DigitalClockWClass");
            vstd::string::is_ascii_spec_bytes(s);
            assert(s.spec_bytes() =~= clock_control_classes()[2]);
        }
        s.as_bytes()
    }
}

fn clock_pattern_bytes() -> (r: &'static [u8])
    ensures
        r@ == clock_pattern(),
{
    let s: &str = "Clock";
    proof {
        reveal_strlit("Clock");
        vstd::string::is_ascii_spec_bytes(s);
        assert(s.spec_bytes() =~= clock_pattern());
    }
    s.as_bytes()
}

fn time_pattern_bytes() -> (r: &'static [u8])
    ensures
        r@ == time_pattern(),
{
    let s: &str = "Time";
    proof {
        reveal_strlit("Time");
        vstd::string::is_ascii_spec_bytes(s);
        assert(s.spec_bytes() =~= time_pattern());
    }
    s.as_bytes()
}

/// Geometric rule a tracked target is hit-tested under.
#[derive(Clone, Copy, PartialEq, Eq, Structural, Debug)]
pub enum TargetClass {
    /// A dedicated clock control: the exact bounding rectangle counts.
    ClockExact,
    /// The generic notification area: only its rightmost third counts,
    /// where the clock sits.
    NotifyRestricted,
    /// An unclassified fallback container: the exact rectangle counts.
    Fallback,
}

/// The classification table: a name containing `Clock` or `Time` is a
/// clock control; the notification-area class gets the restricted rule;
/// anything else is a fallback container.
pub open spec fn spec_classify(name: Seq<u8>) -> TargetClass {
    if has_sub(name, clock_pattern()) || has_sub(name, time_pattern()) {
        TargetClass::ClockExact
    } else if name == tray_notify_class() {
        TargetClass::NotifyRestricted
    } else {
        TargetClass::Fallback
    }
}

/// Classify a window class name.
pub fn classify_class_name(name: &[u8]) -> (c: TargetClass)
    ensures
        c == spec_classify(name@),
{
    if contains_sub(name, clock_pattern_bytes()) || contains_sub(name, time_pattern_bytes()) {
        TargetClass::ClockExact
    } else if bytes_eq(name, tray_notify_class_bytes()) {
        TargetClass::NotifyRestricted
    } else {
        TargetClass::Fallback
    }
}

} // verus!

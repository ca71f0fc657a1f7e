use xclock::classes::{classify_class_name, TargetClass};
use xclock::geometry::{
    is_point_in_targets, point_hits_target, rect_in_taskbar_band, text_area, tooltip_position,
    tooltip_size, Rect, ResolvedTarget,
};

fn rect(left: i32, top: i32, right: i32, bottom: i32) -> Rect {
    Rect { left, top, right, bottom }
}

#[test]
fn classify_clock_controls() {
    assert_eq!(classify_class_name(b"TrayClockWClass"), TargetClass::ClockExact);
    assert_eq!(classify_class_name(b"ClockWClass"), TargetClass::ClockExact);
    assert_eq!(classify_class_name(b"DigitalClockWClass"), TargetClass::ClockExact);
    assert_eq!(classify_class_name(b"SomeTimeControl"), TargetClass::ClockExact);
    assert_eq!(classify_class_name(b"TrayNotifyWnd"), TargetClass::NotifyRestricted);
    assert_eq!(classify_class_name(b"Shell_TrayWnd"), TargetClass::Fallback);
    assert_eq!(classify_class_name(b""), TargetClass::Fallback);
}

#[test]
fn clock_exact_bounds() {
    let b = Some(rect(100, 100, 200, 130));
    assert!(point_hits_target(150, 115, TargetClass::ClockExact, &b));
    assert!(!point_hits_target(250, 115, TargetClass::ClockExact, &b));
    assert!(!point_hits_target(99, 115, TargetClass::ClockExact, &b));
}

#[test]
fn clock_exact_boundary_is_inclusive() {
    let b = Some(rect(100, 100, 200, 130));
    assert!(point_hits_target(100, 115, TargetClass::ClockExact, &b));
    assert!(point_hits_target(200, 115, TargetClass::ClockExact, &b));
    assert!(point_hits_target(150, 100, TargetClass::ClockExact, &b));
    assert!(point_hits_target(150, 130, TargetClass::ClockExact, &b));
    assert!(!point_hits_target(201, 115, TargetClass::ClockExact, &b));
    assert!(!point_hits_target(150, 99, TargetClass::ClockExact, &b));
    assert!(!point_hits_target(150, 131, TargetClass::ClockExact, &b));
}

#[test]
fn notify_area_right_third_only() {
    let b = Some(rect(0, 0, 300, 40));
    assert!(!point_hits_target(199, 20, TargetClass::NotifyRestricted, &b));
    assert!(point_hits_target(200, 20, TargetClass::NotifyRestricted, &b));
    assert!(point_hits_target(300, 20, TargetClass::NotifyRestricted, &b));
    assert!(!point_hits_target(301, 20, TargetClass::NotifyRestricted, &b));
    assert!(!point_hits_target(250, 41, TargetClass::NotifyRestricted, &b));
}

#[test]
fn stale_or_degenerate_bounds_never_hit() {
    assert!(!point_hits_target(150, 115, TargetClass::ClockExact, &None));
    let zero = Some(rect(0, 0, 0, 0));
    assert!(!point_hits_target(0, 0, TargetClass::ClockExact, &zero));
    let flat = Some(rect(100, 100, 200, 100));
    assert!(!point_hits_target(150, 100, TargetClass::Fallback, &flat));
}

#[test]
fn fallback_uses_exact_rect() {
    let b = Some(rect(10, 10, 50, 50));
    assert!(point_hits_target(10, 50, TargetClass::Fallback, &b));
    assert!(!point_hits_target(9, 50, TargetClass::Fallback, &b));
}

#[test]
fn oracle_over_target_set() {
    let ts = vec![
        ResolvedTarget { name: b"TrayClockWClass".to_vec(), bounds: Some(rect(100, 100, 200, 130)) },
        ResolvedTarget { name: b"TrayNotifyWnd".to_vec(), bounds: Some(rect(0, 0, 300, 40)) },
    ];
    assert!(is_point_in_targets(150, 115, &ts));
    assert!(is_point_in_targets(250, 20, &ts));
    assert!(!is_point_in_targets(100, 20, &ts));
    assert!(!is_point_in_targets(500, 500, &ts));
}

#[test]
fn oracle_empty_set_hits_nothing() {
    let ts: Vec<ResolvedTarget> = Vec::new();
    assert!(!is_point_in_targets(0, 0, &ts));
}

#[test]
fn oracle_skips_stale_target() {
    let ts = vec![ResolvedTarget { name: b"ClockWClass".to_vec(), bounds: None }];
    assert!(!is_point_in_targets(150, 115, &ts));
}

#[test]
fn taskbar_band() {
    assert!(rect_in_taskbar_band(&rect(0, 1000, 100, 1040), 1080));
    assert!(!rect_in_taskbar_band(&rect(0, 880, 100, 920), 1080));
    assert!(rect_in_taskbar_band(&rect(0, 881, 100, 920), 1080));
}

#[test]
fn tooltip_size_clamps_to_minimum() {
    let (w, h) = tooltip_size(b"short");
    assert_eq!((w, h), (250, 60));
}

#[test]
fn tooltip_size_grows_with_text() {
    let mut text = Vec::new();
    for _ in 0..40 {
        text.push(b'a');
    }
    for _ in 0..4 {
        text.push(b'\n');
        text.push(b'b');
    }
    // Longest line is 40 characters; five lines in all.
    let (w, h) = tooltip_size(&text);
    assert_eq!(w, 320);
    assert_eq!(h, 100);
}

#[test]
fn tooltip_size_of_empty_text() {
    let (w, h) = tooltip_size(b"");
    assert_eq!((w, h), (250, 60));
}

#[test]
fn tooltip_position_normal() {
    assert_eq!(tooltip_position(500, 900, 250, 60, 1920), (515, 830));
}

#[test]
fn tooltip_position_flips_at_right_edge() {
    assert_eq!(tooltip_position(1900, 900, 250, 60, 1920), (1635, 830));
}

#[test]
fn tooltip_position_drops_below_at_top_edge() {
    assert_eq!(tooltip_position(500, 30, 250, 60, 1920), (515, 55));
}

#[test]
fn text_area_insets_by_eight() {
    let r = text_area(&rect(0, 0, 250, 60));
    assert_eq!((r.left, r.top, r.right, r.bottom), (8, 8, 242, 52));
}

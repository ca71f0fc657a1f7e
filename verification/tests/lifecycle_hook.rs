use xclock::geometry::{Rect, ResolvedTarget};
use xclock::hook::{
    confirm_hover, on_mouse_event, on_window_event, pump_continue, tooltip_window_message_action,
    HookSlot, MouseAction, WindowMsgAction, HCBT_CREATEWND, WM_DESTROY, WM_LBUTTONDOWN,
    WM_MBUTTONDOWN, WM_MOUSEMOVE, WM_PAINT, WM_QUIT, WM_RBUTTONDOWN, WM_TIMER,
};
use xclock::lifecycle::{EnginePhase, HookEngine, StartError};
use xclock::locator::{LocatePhase, TargetWindow, WindowLocator};
use xclock::mutator::TooltipState;

#[test]
fn hook_slot_install_uninstall() {
    let mut s = HookSlot::new();
    assert!(s.need_install());
    assert!(s.confirm_install(7));
    assert!(!s.need_install());
    assert_eq!(s.installed_handle(), Some(7));
    s.confirm_uninstall(false);
    assert_eq!(s.installed_handle(), Some(7));
    s.confirm_uninstall(true);
    assert_eq!(s.installed_handle(), None);
}

#[test]
fn hook_slot_failed_install_stays_empty() {
    let mut s = HookSlot::new();
    assert!(!s.confirm_install(0));
    assert!(s.need_install());
}

#[test]
fn hook_slot_take_uninstall_idempotent() {
    let mut s = HookSlot::new();
    s.confirm_install(9);
    assert_eq!(s.take_uninstall(), Some(9));
    assert_eq!(s.take_uninstall(), None);
}

#[test]
fn window_event_schedules_only_for_tooltip_creation() {
    let r = on_window_event(HCBT_CREATEWND, b"tooltips_class32");
    assert!(r.forward);
    assert!(r.schedule_check);
    // A non-tooltip class never triggers the mutator.
    let r = on_window_event(HCBT_CREATEWND, b"Button");
    assert!(r.forward);
    assert!(!r.schedule_check);
    // The tooltip class under another hook code does not either.
    let r = on_window_event(1, b"tooltips_class32");
    assert!(r.forward);
    assert!(!r.schedule_check);
    let r = on_window_event(-1, b"tooltips_class32");
    assert!(r.forward);
    assert!(!r.schedule_check);
}

fn clock_targets() -> Vec<ResolvedTarget> {
    vec![ResolvedTarget {
        name: b"TrayClockWClass".to_vec(),
        bounds: Some(Rect { left: 100, top: 100, right: 200, bottom: 130 }),
    }]
}

#[test]
fn mouse_event_enter_show_keep_leave() {
    let ts = clock_targets();
    // Enter while hidden: consider showing.
    let r = on_mouse_event(0, WM_MOUSEMOVE, 150, 115, &ts, false);
    assert!(r.forward);
    assert_eq!(r.action, MouseAction::ConsiderShow { x: 150, y: 115 });
    // Inside while already visible: keep as is.
    let r = on_mouse_event(0, WM_MOUSEMOVE, 150, 115, &ts, true);
    assert!(r.forward);
    assert_eq!(r.action, MouseAction::Idle);
    // Outside: hide.
    let r = on_mouse_event(0, WM_MOUSEMOVE, 500, 500, &ts, true);
    assert!(r.forward);
    assert_eq!(r.action, MouseAction::Hide);
}

#[test]
fn mouse_event_buttons_hide() {
    let ts = clock_targets();
    for msg in [WM_LBUTTONDOWN, WM_RBUTTONDOWN, WM_MBUTTONDOWN] {
        let r = on_mouse_event(0, msg, 150, 115, &ts, true);
        assert!(r.forward);
        assert_eq!(r.action, MouseAction::Hide);
    }
}

#[test]
fn mouse_event_negative_code_passes_through() {
    let ts = clock_targets();
    let r = on_mouse_event(-1, WM_MOUSEMOVE, 150, 115, &ts, false);
    assert!(r.forward);
    assert_eq!(r.action, MouseAction::Idle);
}

#[test]
fn mouse_event_unknown_message_is_idle() {
    let ts = clock_targets();
    let r = on_mouse_event(0, 0x0400, 150, 115, &ts, false);
    assert!(r.forward);
    assert_eq!(r.action, MouseAction::Idle);
}

#[test]
fn hover_recheck() {
    let ts = clock_targets();
    let hidden = TooltipState::new();
    assert!(confirm_hover(150, 115, &ts, &hidden));
    // The cursor moved away during the debounce.
    assert!(!confirm_hover(500, 500, &ts, &hidden));
    // Another worker showed the overlay meanwhile.
    let mut shown = TooltipState::new();
    shown.confirm_shown(11);
    assert!(!confirm_hover(150, 115, &ts, &shown));
}

#[test]
fn overlay_show_hide_cycle() {
    let mut s = TooltipState::new();
    assert!(s.may_show());
    s.confirm_shown(11);
    assert!(!s.may_show());
    assert!(s.visible);
    assert_eq!(s.take_hide(), Some(11));
    assert!(!s.visible);
    assert_eq!(s.take_hide(), None);
}

#[test]
fn overlay_window_messages() {
    assert_eq!(tooltip_window_message_action(WM_PAINT), WindowMsgAction::Paint);
    assert_eq!(tooltip_window_message_action(WM_TIMER), WindowMsgAction::HideTooltip);
    assert_eq!(tooltip_window_message_action(WM_DESTROY), WindowMsgAction::Acknowledge);
    assert_eq!(tooltip_window_message_action(0x0400), WindowMsgAction::PassOn);
}

#[test]
fn pump_stops_only_on_quit() {
    assert!(pump_continue(false, 0));
    assert!(pump_continue(true, WM_PAINT));
    assert!(!pump_continue(true, WM_QUIT));
    assert!(pump_continue(false, WM_QUIT));
}

fn one_target() -> Vec<TargetWindow> {
    vec![TargetWindow { handle: 5, class_name: b"TrayClockWClass".to_vec() }]
}

#[test]
fn start_happy_path_then_second_start_rejected() {
    let mut e = HookEngine::new(true);
    assert!(!e.is_running());
    assert_eq!(e.start_begin(), Ok(()));
    assert_eq!(e.targets_located(one_target()), Ok(()));
    assert_eq!(e.class_registered(true), Ok(()));
    assert_eq!(e.hook_installed(77, 0), Ok(()));
    assert!(e.is_running());
    assert_eq!(e.hook.handle, Some(77));
    // A second start must not install a second hook.
    assert_eq!(e.start_begin(), Err(StartError::AlreadyRunning));
    assert_eq!(e.hook.handle, Some(77));
    assert!(e.is_running());
}

#[test]
fn strict_engine_rejects_empty_targets() {
    let mut e = HookEngine::new(true);
    assert_eq!(e.start_begin(), Ok(()));
    assert_eq!(e.targets_located(Vec::new()), Err(StartError::TargetNotFound));
    assert_eq!(e.phase, EnginePhase::Stopped);
    assert!(!e.is_running());
}

#[test]
fn permissive_engine_runs_degraded_without_targets() {
    let mut e = HookEngine::new(false);
    assert_eq!(e.start_begin(), Ok(()));
    assert_eq!(e.targets_located(Vec::new()), Ok(()));
    assert_eq!(e.class_registered(true), Ok(()));
    assert_eq!(e.hook_installed(3, 0), Ok(()));
    assert!(e.is_running());
    assert_eq!(e.targets.len(), 0);
}

#[test]
fn class_registration_failure_aborts() {
    let mut e = HookEngine::new(true);
    assert_eq!(e.start_begin(), Ok(()));
    assert_eq!(e.targets_located(one_target()), Ok(()));
    assert_eq!(e.class_registered(false), Err(StartError::WindowClassRegistrationFailed));
    assert_eq!(e.phase, EnginePhase::Stopped);
    assert!(!e.is_running());
    assert_eq!(e.targets.len(), 0);
}

#[test]
fn hook_install_failure_carries_code() {
    let mut e = HookEngine::new(true);
    assert_eq!(e.start_begin(), Ok(()));
    assert_eq!(e.targets_located(one_target()), Ok(()));
    assert_eq!(e.class_registered(true), Ok(()));
    assert_eq!(e.hook_installed(0, 1401), Err(StartError::HookInstallFailed { code: 1401 }));
    assert_eq!(e.phase, EnginePhase::Stopped);
    assert!(!e.is_running());
    assert_eq!(e.hook.handle, None);
}

#[test]
fn stop_from_running_cleans_up() {
    let mut e = HookEngine::new(true);
    e.start_begin().unwrap();
    e.targets_located(one_target()).unwrap();
    e.class_registered(true).unwrap();
    e.hook_installed(77, 0).unwrap();
    e.tooltip.confirm_shown(11);
    let acts = e.stop();
    assert_eq!(acts.unhook, Some(77));
    assert_eq!(acts.destroy_tooltip, Some(11));
    assert!(!e.is_running());
    assert_eq!(e.phase, EnginePhase::Stopped);
    assert_eq!(e.hook.handle, None);
    assert_eq!(e.targets.len(), 0);
}

#[test]
fn stop_is_safe_from_any_state_and_idempotent() {
    // Never started.
    let mut e = HookEngine::new(true);
    let acts = e.stop();
    assert_eq!(acts.unhook, None);
    assert_eq!(acts.destroy_tooltip, None);
    assert!(!e.is_running());
    // Mid-start.
    let mut e = HookEngine::new(true);
    e.start_begin().unwrap();
    let acts = e.stop();
    assert_eq!(acts.unhook, None);
    assert!(!e.is_running());
    // Twice in a row.
    let mut e = HookEngine::new(true);
    e.start_begin().unwrap();
    e.targets_located(one_target()).unwrap();
    e.class_registered(true).unwrap();
    e.hook_installed(77, 0).unwrap();
    e.stop();
    let again = e.stop();
    assert_eq!(again.unhook, None);
    assert_eq!(again.destroy_tooltip, None);
    assert!(!e.is_running());
}

#[test]
fn stop_preserves_cooldown_timestamp() {
    let mut e = HookEngine::new(true);
    e.tooltip.mark_tooltip_updated(4_000);
    e.stop();
    assert_eq!(e.tooltip.last_update_ms, Some(4_000));
}

#[test]
fn locator_finds_primary_clock() {
    let mut l = WindowLocator::start_locate();
    // Primary shell container.
    let q = l.next_query().unwrap();
    assert_eq!(q.parent, None);
    assert_eq!(q.class, b"Shell_TrayWnd".to_vec());
    l.report(100);
    // Notification area inside it.
    let q = l.next_query().unwrap();
    assert_eq!(q.parent, Some(100));
    assert_eq!(q.class, b"TrayNotifyWnd".to_vec());
    l.report(200);
    // Clock probes in priority order: the first matches.
    let q = l.next_query().unwrap();
    assert_eq!(q.parent, Some(200));
    assert_eq!(q.class, b"TrayClockWClass".to_vec());
    l.report(300);
    let q = l.next_query().unwrap();
    assert_eq!(q.class, b"ClockWClass".to_vec());
    l.report(0);
    let q = l.next_query().unwrap();
    assert_eq!(q.class, b"DigitalClockWClass".to_vec());
    l.report(0);
    // Secondary container is absent.
    let q = l.next_query().unwrap();
    assert_eq!(q.parent, None);
    assert_eq!(q.class, b"Shell_SecondaryTrayWnd".to_vec());
    l.report(0);
    assert!(l.is_finished());
    let ts = l.finish();
    assert_eq!(ts.len(), 1);
    assert_eq!(ts[0].handle, 300);
    assert_eq!(ts[0].class_name, b"TrayClockWClass".to_vec());
}

#[test]
fn locator_falls_back_to_notification_area() {
    let mut l = WindowLocator::start_locate();
    l.report(100); // shell
    l.report(200); // notification area
    l.report(0); // no clock controls at all
    l.report(0);
    l.report(0);
    l.report(0); // no secondary shell
    assert!(l.is_finished());
    let ts = l.finish();
    assert_eq!(ts.len(), 1);
    assert_eq!(ts[0].handle, 200);
    assert_eq!(ts[0].class_name, b"TrayNotifyWnd".to_vec());
}

#[test]
fn locator_collects_from_both_containers() {
    let mut l = WindowLocator::start_locate();
    l.report(100); // primary shell
    l.report(200); // its notification area
    l.report(300); // TrayClockWClass
    l.report(301); // ClockWClass also present
    l.report(0);
    l.report(400); // secondary shell
    l.report(500); // its notification area
    l.report(0); // no clock controls there
    l.report(0);
    l.report(0);
    assert!(l.is_finished());
    let ts = l.finish();
    assert_eq!(ts.len(), 3);
    assert_eq!((ts[0].handle, ts[1].handle, ts[2].handle), (300, 301, 500));
    assert_eq!(ts[2].class_name, b"TrayNotifyWnd".to_vec());
}

#[test]
fn locator_with_no_shell_finds_nothing() {
    let mut l = WindowLocator::start_locate();
    l.report(0); // no primary shell
    assert_eq!(l.phase, LocatePhase::SecondaryShell);
    l.report(0); // no secondary shell
    assert!(l.is_finished());
    assert_eq!(l.finish().len(), 0);
}

#[test]
fn locator_missing_notification_area_contributes_nothing() {
    let mut l = WindowLocator::start_locate();
    l.report(100); // primary shell found
    l.report(0); // but no notification area inside
    l.report(0); // no secondary shell
    assert!(l.is_finished());
    assert_eq!(l.finish().len(), 0);
}

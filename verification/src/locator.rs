//! The window locator: a step machine that walks the shell's window
//! hierarchy once, looking for clock targets. The caller (which alone can
//! query the window system) repeatedly asks for the next query, performs
//! it, and reports the answer; the machine accumulates the targets.
//!
//! Strategy: find the primary shell container by class name; inside it
//! find the notification area; inside that, probe the known clock-control
//! classes in a fixed priority order, keeping every match; when no clock
//! control matched, fall back to the notification area itself. Then do
//! the same for the secondary (multi-monitor) shell container, appending
//! any matches. Containers that are missing contribute nothing; the
//! machine never retries.
use vstd::prelude::*;
use vstd::slice::slice_to_vec;
use crate::classes::{
    clock_control_class_bytes, clock_control_classes, shell_secondary_tray_class,
    shell_secondary_tray_class_bytes, shell_tray_class, shell_tray_class_bytes,
    tray_notify_class, tray_notify_class_bytes,
};

verus! {

/// One discovered target: the native window's handle, tagged with the
/// class name it was found under. Read-only after discovery.
pub struct TargetWindow {
    pub handle: u64,
    pub class_name: Vec<u8>,
}

/// The mathematical content of a target: handle and class-name bytes.
pub open spec fn target_model(t: TargetWindow) -> (u64, Seq<u8>) {
    (t.handle, t.class_name@)
}

/// The content of a target list.
pub open spec fn targets_model(ts: Seq<TargetWindow>) -> Seq<(u64, Seq<u8>)> {
    ts.map_values(|t: TargetWindow| target_model(t))
}

/// A single window-system query the caller is asked to perform: find a
/// top-level window of the class (no parent), or a direct child of
/// `parent` of the class. The answer is the window's handle, or zero when
/// nothing matched.
pub struct LocateQuery {
    pub parent: Option<u64>,
    pub class: Vec<u8>,
}

/// Where the walk stands.
#[derive(Clone, Copy, PartialEq, Eq, Structural, Debug)]
pub enum LocatePhase {
    /// About to look for the primary shell container.
    PrimaryShell,
    /// About to look for the notification area inside `shell`.
    Notify { shell: u64, secondary: bool },
    /// About to probe clock-control class `idx` inside `notify`;
    /// `found_any` records whether any probe matched so far.
    Clocks { notify: u64, idx: usize, found_any: bool, secondary: bool },
    /// About to look for the secondary shell container.
    SecondaryShell,
    /// The hierarchy has been walked once; nothing more to ask.
    Finished,
}

/// The locator's state: the current phase and the targets found so far.
pub struct WindowLocator {
    pub phase: LocatePhase,
    pub targets: Vec<TargetWindow>,
}

impl WindowLocator {
    pub open spec fn wf(self) -> bool {
        match self.phase {
            LocatePhase::Clocks { notify, idx, found_any, secondary } =>
                idx < clock_control_classes().len(),
            _ => true,
        }
    }

    /// Begin a walk: no targets yet, primary container first.
    pub fn start_locate() -> (l: Self)
        ensures
            l.wf(),
            l.phase == LocatePhase::PrimaryShell,
            l.targets@.len() == 0,
    {
        WindowLocator { phase: LocatePhase::PrimaryShell, targets: Vec::new() }
    }

    /// The next query to perform, or `None` once the walk is finished.
    pub fn next_query(&self) -> (q: Option<LocateQuery>)
        requires
            self.wf(),
        ensures
            match self.phase {
                LocatePhase::PrimaryShell => {
                    &&& q.is_some()
                    &&& q.unwrap().parent.is_none()
                    &&& q.unwrap().class@ == shell_tray_class()
                },
                LocatePhase::Notify { shell, secondary } => {
                    &&& q.is_some()
                    &&& q.unwrap().parent == Some(shell)
                    &&& q.unwrap().class@ == tray_notify_class()
                },
                LocatePhase::Clocks { notify, idx, found_any, secondary } => {
                    &&& q.is_some()
                    &&& q.unwrap().parent == Some(notify)
                    &&& q.unwrap().class@ == clock_control_classes()[idx as int]
                },
                LocatePhase::SecondaryShell => {
                    &&& q.is_some()
                    &&& q.unwrap().parent.is_none()
                    &&& q.unwrap().class@ == shell_secondary_tray_class()
                },
                LocatePhase::Finished => q.is_none(),
            },
    {
        match self.phase {
            LocatePhase::PrimaryShell => Some(LocateQuery {
                parent: None,
                class: slice_to_vec(shell_tray_class_bytes()),
            }),
            LocatePhase::Notify { shell, secondary } => Some(LocateQuery {
                parent: Some(shell),
                class: slice_to_vec(tray_notify_class_bytes()),
            }),
            LocatePhase::Clocks { notify, idx, found_any, secondary } => Some(LocateQuery {
                parent: Some(notify),
                class: slice_to_vec(clock_control_class_bytes(idx)),
            }),
            LocatePhase::SecondaryShell => Some(LocateQuery {
                parent: None,
                class: slice_to_vec(shell_secondary_tray_class_bytes()),
            }),
            LocatePhase::Finished => None,
        }
    }

    /// Report the answer to the pending query: the found window's handle,
    /// or zero for no match. Advances the walk and collects targets.
    pub fn report(&mut self, found: u64)
        requires
            old(self).wf(),
            old(self).phase != LocatePhase::Finished,
        ensures
            final(self).wf(),
            match old(self).phase {
                LocatePhase::PrimaryShell => {
                    &&& final(self).targets == old(self).targets
                    &&& final(self).phase == (if found != 0 {
                        LocatePhase::Notify { shell: found, secondary: false }
                    } else {
                        LocatePhase::SecondaryShell
                    })
                },
                LocatePhase::Notify { shell, secondary } => {
                    &&& final(self).targets == old(self).targets
                    &&& final(self).phase == (if found != 0 {
                        LocatePhase::Clocks { notify: found, idx: 0, found_any: false, secondary }
                    } else if secondary {
                        LocatePhase::Finished
                    } else {
                        LocatePhase::SecondaryShell
                    })
                },
                LocatePhase::Clocks { notify, idx, found_any, secondary } => {
                    let kept = if found != 0 {
                        targets_model(old(self).targets@).push(
                            (found, clock_control_classes()[idx as int]),
                        )
                    } else {
                        targets_model(old(self).targets@)
                    };
                    let any = found_any || found != 0;
                    let last = idx + 1 == clock_control_classes().len();
                    &&& targets_model(final(self).targets@) == (if last && !any {
                        kept.push((notify, tray_notify_class()))
                    } else {
                        kept
                    })
                    &&& final(self).phase == (if !last {
                        LocatePhase::Clocks { notify, idx: (idx + 1) as usize, found_any: any, secondary }
                    } else if secondary {
                        LocatePhase::Finished
                    } else {
                        LocatePhase::SecondaryShell
                    })
                },
                LocatePhase::SecondaryShell => {
                    &&& final(self).targets == old(self).targets
                    &&& final(self).phase == (if found != 0 {
                        LocatePhase::Notify { shell: found, secondary: true }
                    } else {
                        LocatePhase::Finished
                    })
                },
                LocatePhase::Finished => false,
            },
    {
        match self.phase {
            LocatePhase::PrimaryShell => {
                self.phase = if found != 0 {
                    LocatePhase::Notify { shell: found, secondary: false }
                } else {
                    LocatePhase::SecondaryShell
                };
            },
            LocatePhase::Notify { shell, secondary } => {
                self.phase = if found != 0 {
                    LocatePhase::Clocks { notify: found, idx: 0, found_any: false, secondary }
                } else if secondary {
                    LocatePhase::Finished
                } else {
                    LocatePhase::SecondaryShell
                };
            },
            LocatePhase::Clocks { notify, idx, found_any, secondary } => {
                let ghost pre = targets_model(self.targets@);
                if found != 0 {
                    let class = slice_to_vec(clock_control_class_bytes(idx));
                    self.targets.push(TargetWindow { handle: found, class_name: class });
                    proof {
                        assert(targets_model(self.targets@) =~= pre.push(
                            (found, clock_control_classes()[idx as int]),
                        ));
                    }
                }
                let any = found_any || found != 0;
                let last = idx + 1 == 3;
                proof {
                    assert(clock_control_classes().len() == 3);
                }
                if last && !any {
                    let ghost kept = targets_model(self.targets@);
                    let nclass = slice_to_vec(tray_notify_class_bytes());
                    self.targets.push(TargetWindow { handle: notify, class_name: nclass });
                    proof {
                        assert(targets_model(self.targets@) =~= kept.push(
                            (notify, tray_notify_class()),
                        ));
                    }
                }
                self.phase = if !last {
                    LocatePhase::Clocks { notify, idx: idx + 1, found_any: any, secondary }
                } else if secondary {
                    LocatePhase::Finished
                } else {
                    LocatePhase::SecondaryShell
                };
            },
            LocatePhase::SecondaryShell => {
                self.phase = if found != 0 {
                    LocatePhase::Notify { shell: found, secondary: true }
                } else {
                    LocatePhase::Finished
                };
            },
            LocatePhase::Finished => {
                proof {
                    assert(false);
                }
            },
        }
    }

    /// Whether the walk is over.
    pub fn is_finished(&self) -> (b: bool)
        ensures
            b == (self.phase == LocatePhase::Finished),
    {
        match self.phase {
            LocatePhase::Finished => true,
            _ => false,
        }
    }

    /// Hand out the discovered targets, in discovery order.
    pub fn finish(self) -> (ts: Vec<TargetWindow>)
        requires
            self.phase == LocatePhase::Finished,
        ensures
            ts == self.targets,
    {
        self.targets
    }
}

} // verus!

//! The lifecycle controller: one engine object owns the hook slot, the
//! tooltip state and the target set, and sequences install and uninstall.
//!
//! Starting is a protocol of steps — locate targets, register the overlay
//! window class, install the hook — with the window-system work between
//! the steps done by the caller; any failing step aborts the attempt and
//! returns the engine to `Stopped`. A start request while the engine is
//! not stopped is rejected as `AlreadyRunning` and changes nothing (the
//! reject-loudly policy, applied consistently). Whether an empty target
//! set aborts the start (strict) or degrades to a running engine without
//! targets (permissive) is chosen at construction.
//!
//! Stopping is total and idempotent: from any well-formed state it hands
//! back the cleanup actions, clears every record unconditionally — never
//! keeping track of a dangling hook — and lands in `Stopped`.
use vstd::prelude::*;
use crate::hook::HookSlot;
use crate::locator::{targets_model, TargetWindow};
use crate::mutator::TooltipState;

verus! {

/// Why a start attempt was refused or aborted.
#[derive(Clone, Copy, PartialEq, Eq, Structural, Debug)]
pub enum StartError {
    /// The engine is already running (or mid-start): the request is
    /// rejected, nothing is installed twice.
    AlreadyRunning,
    /// No target was discovered and the engine is strict.
    TargetNotFound,
    /// The overlay window class could not be registered.
    WindowClassRegistrationFailed,
    /// The window system refused the hook, with its native error code.
    HookInstallFailed { code: u32 },
}

/// Where the engine stands.
#[derive(Clone, Copy, PartialEq, Eq, Structural, Debug)]
pub enum EnginePhase {
    /// Not running; nothing installed.
    Stopped,
    /// Start step one: waiting for the located targets.
    Locating,
    /// Start step two: waiting for the window-class registration outcome.
    Registering,
    /// Start step three: waiting for the hook-install outcome.
    Installing,
    /// The hook is installed and the running flag is set.
    Running,
}

/// The cleanup a stop hands to the caller: the hook handle to uninstall
/// and the overlay window to destroy, when they exist.
pub struct StopActions {
    pub unhook: Option<u64>,
    pub destroy_tooltip: Option<u64>,
}

/// The mathematical content of an engine.
pub struct EngineModel {
    pub phase: EnginePhase,
    pub strict: bool,
    pub running: bool,
    pub hook: Option<u64>,
    pub tooltip: TooltipState,
    pub targets: Seq<(u64, Seq<u8>)>,
}

impl EngineModel {
    /// The running flag reads true exactly in `Running`, which is also
    /// exactly when a hook handle is held, and the tooltip state is tied
    /// together.
    pub open spec fn wf(self) -> bool {
        &&& self.running == (self.phase == EnginePhase::Running)
        &&& self.hook.is_some() == (self.phase == EnginePhase::Running)
        &&& self.tooltip.wf()
    }
}

/// A stopped engine with nothing recorded but the policy flag.
pub open spec fn spec_engine_new(strict: bool) -> EngineModel {
    EngineModel {
        phase: EnginePhase::Stopped,
        strict,
        running: false,
        hook: None,
        tooltip: TooltipState { visible: false, owned_window: None, last_update_ms: None },
        targets: Seq::empty(),
    }
}

/// The start request: accepted only from `Stopped`.
pub open spec fn spec_start_begin(m: EngineModel) -> (EngineModel, Result<(), StartError>) {
    if m.phase == EnginePhase::Stopped {
        (EngineModel { phase: EnginePhase::Locating, ..m }, Ok(()))
    } else {
        (m, Err(StartError::AlreadyRunning))
    }
}

/// The located targets arrive: an empty set aborts a strict engine,
/// otherwise the set is published and registration is next.
pub open spec fn spec_targets_located(m: EngineModel, ts: Seq<(u64, Seq<u8>)>) -> (
    EngineModel,
    Result<(), StartError>,
) {
    if ts.len() == 0 && m.strict {
        (
            EngineModel { phase: EnginePhase::Stopped, targets: Seq::empty(), ..m },
            Err(StartError::TargetNotFound),
        )
    } else {
        (EngineModel { phase: EnginePhase::Registering, targets: ts, ..m }, Ok(()))
    }
}

/// The window-class registration outcome: failure aborts the attempt.
pub open spec fn spec_class_registered(m: EngineModel, ok: bool) -> (
    EngineModel,
    Result<(), StartError>,
) {
    if ok {
        (EngineModel { phase: EnginePhase::Installing, ..m }, Ok(()))
    } else {
        (
            EngineModel { phase: EnginePhase::Stopped, targets: Seq::empty(), ..m },
            Err(StartError::WindowClassRegistrationFailed),
        )
    }
}

/// The hook-install outcome: a null handle aborts the attempt with the
/// native error code; a real handle fills the slot and the engine runs.
pub open spec fn spec_hook_installed(m: EngineModel, os_handle: u64, err_code: u32) -> (
    EngineModel,
    Result<(), StartError>,
) {
    if os_handle != 0 {
        (
            EngineModel {
                phase: EnginePhase::Running,
                running: true,
                hook: Some(os_handle),
                ..m
            },
            Ok(()),
        )
    } else {
        (
            EngineModel { phase: EnginePhase::Stopped, targets: Seq::empty(), ..m },
            Err(StartError::HookInstallFailed { code: err_code }),
        )
    }
}

/// Stop: clear everything unconditionally and hand back what to clean up.
/// Only the mutation timestamp survives, so the cooldown still holds
/// across a restart.
pub open spec fn spec_stop(m: EngineModel) -> (EngineModel, StopActions) {
    (
        EngineModel {
            phase: EnginePhase::Stopped,
            strict: m.strict,
            running: false,
            hook: None,
            tooltip: TooltipState {
                visible: false,
                owned_window: None,
                last_update_ms: m.tooltip.last_update_ms,
            },
            targets: Seq::empty(),
        },
        StopActions { unhook: m.hook, destroy_tooltip: m.tooltip.owned_window },
    )
}

/// The engine: the one context object the pump and the hook callbacks
/// share. Its `model` is what the contracts speak of.
pub struct HookEngine {
    pub phase: EnginePhase,
    pub strict: bool,
    pub running: bool,
    pub hook: HookSlot,
    pub tooltip: TooltipState,
    pub targets: Vec<TargetWindow>,
}

impl HookEngine {
    pub open spec fn model(self) -> EngineModel {
        EngineModel {
            phase: self.phase,
            strict: self.strict,
            running: self.running,
            hook: self.hook.handle,
            tooltip: self.tooltip,
            targets: targets_model(self.targets@),
        }
    }

    pub open spec fn wf(self) -> bool {
        self.model().wf()
    }

    /// A stopped engine. `strict` picks the empty-target policy: abort
    /// the start, or run degraded.
    pub fn new(strict: bool) -> (e: Self)
        ensures
            e.wf(),
            e.model() == spec_engine_new(strict),
    {
        let e = HookEngine {
            phase: EnginePhase::Stopped,
            strict,
            running: false,
            hook: HookSlot::new(),
            tooltip: TooltipState::new(),
            targets: Vec::new(),
        };
        proof {
            assert(e.model().targets =~= Seq::<(u64, Seq<u8>)>::empty());
        }
        e
    }

    /// The running flag the external event pump polls.
    pub fn is_running(&self) -> (r: bool)
        ensures
            r == self.running,
    {
        self.running
    }

    /// Request a start. Accepted only from `Stopped`; from any other
    /// phase the request is rejected and nothing changes.
    pub fn start_begin(&mut self) -> (r: Result<(), StartError>)
        requires
            old(self).wf(),
        ensures
            final(self).wf(),
            (final(self).model(), r) == spec_start_begin(old(self).model()),
    {
        match self.phase {
            EnginePhase::Stopped => {
                self.phase = EnginePhase::Locating;
                Ok(())
            },
            _ => Err(StartError::AlreadyRunning),
        }
    }

    /// Publish the located targets (set-then-publish: readers never see a
    /// partial set). An empty set aborts a strict engine's start.
    pub fn targets_located(&mut self, ts: Vec<TargetWindow>) -> (r: Result<(), StartError>)
        requires
            old(self).wf(),
            old(self).phase == EnginePhase::Locating,
        ensures
            final(self).wf(),
            (final(self).model(), r) == spec_targets_located(old(self).model(), targets_model(ts@)),
    {
        if ts.len() == 0 && self.strict {
            self.phase = EnginePhase::Stopped;
            self.targets = Vec::new();
            proof {
                assert(self.model().targets =~= Seq::<(u64, Seq<u8>)>::empty());
            }
            Err(StartError::TargetNotFound)
        } else {
            self.phase = EnginePhase::Registering;
            self.targets = ts;
            Ok(())
        }
    }

    /// Report the window-class registration outcome.
    pub fn class_registered(&mut self, ok: bool) -> (r: Result<(), StartError>)
        requires
            old(self).wf(),
            old(self).phase == EnginePhase::Registering,
        ensures
            final(self).wf(),
            (final(self).model(), r) == spec_class_registered(old(self).model(), ok),
    {
        if ok {
            self.phase = EnginePhase::Installing;
            Ok(())
        } else {
            self.phase = EnginePhase::Stopped;
            self.targets = Vec::new();
            proof {
                assert(self.model().targets =~= Seq::<(u64, Seq<u8>)>::empty());
            }
            Err(StartError::WindowClassRegistrationFailed)
        }
    }

    /// Report the hook-install outcome: the new handle, or zero together
    /// with the native error code.
    pub fn hook_installed(&mut self, os_handle: u64, err_code: u32) -> (r: Result<(), StartError>)
        requires
            old(self).wf(),
            old(self).phase == EnginePhase::Installing,
        ensures
            final(self).wf(),
            (final(self).model(), r) == spec_hook_installed(old(self).model(), os_handle, err_code),
    {
        if os_handle != 0 {
            let ok = self.hook.confirm_install(os_handle);
            self.phase = EnginePhase::Running;
            self.running = true;
            Ok(())
        } else {
            self.phase = EnginePhase::Stopped;
            self.targets = Vec::new();
            proof {
                assert(self.model().targets =~= Seq::<(u64, Seq<u8>)>::empty());
            }
            Err(StartError::HookInstallFailed { code: err_code })
        }
    }

    /// Stop, from any state: hand back the cleanup actions and land in
    /// `Stopped` with the running flag cleared. Safe and idempotent.
    pub fn stop(&mut self) -> (acts: StopActions)
        requires
            old(self).wf(),
        ensures
            final(self).wf(),
            (final(self).model(), acts) == spec_stop(old(self).model()),
            !final(self).running,
    {
        let unhook = self.hook.take_uninstall();
        let destroy_tooltip = self.tooltip.take_hide();
        self.phase = EnginePhase::Stopped;
        self.running = false;
        self.targets = Vec::new();
        proof {
            assert(self.model().targets =~= Seq::<(u64, Seq<u8>)>::empty());
        }
        StopActions { unhook, destroy_tooltip }
    }
}

/// Law: in a full successful start from `Stopped` — targets accepted,
/// class registered, hook installed with handle `h` — followed by another
/// start request, the second request is rejected and changes nothing, so
/// the one hook handle `h` remains the only one ever installed.
pub proof fn lemma_second_start_installs_no_second_hook(
    m: EngineModel,
    ts: Seq<(u64, Seq<u8>)>,
    h: u64,
    code: u32,
)
    requires
        m.wf(),
        m.phase == EnginePhase::Stopped,
        ts.len() > 0 || !m.strict,
        h != 0,
    ensures
        ({
            let (m1, r1) = spec_start_begin(m);
            let (m2, r2) = spec_targets_located(m1, ts);
            let (m3, r3) = spec_class_registered(m2, true);
            let (m4, r4) = spec_hook_installed(m3, h, code);
            let (m5, r5) = spec_start_begin(m4);
            &&& r1 == Ok::<(), StartError>(())
            &&& r2 == Ok::<(), StartError>(())
            &&& r3 == Ok::<(), StartError>(())
            &&& r4 == Ok::<(), StartError>(())
            &&& m4.hook == Some(h)
            &&& m4.running
            &&& r5 == Err::<(), StartError>(StartError::AlreadyRunning)
            &&& m5 == m4
            &&& m5.hook == Some(h)
        }),
{
}

/// Law: stopping is total over well-formed engines and always ends with
/// the running flag false, no hook handle recorded, and no overlay owned,
/// whatever the prior state.
pub proof fn lemma_stop_always_clears(m: EngineModel)
    requires
        m.wf(),
    ensures
        ({
            let (m2, acts) = spec_stop(m);
            &&& m2.wf()
            &&& m2.phase == EnginePhase::Stopped
            &&& !m2.running
            &&& m2.hook.is_none()
            &&& m2.tooltip.owned_window.is_none()
            &&& acts.unhook == m.hook
            &&& acts.destroy_tooltip == m.tooltip.owned_window
        }),
{
}

/// Law: stopping twice is the same as stopping once, and the second stop
/// has nothing left to clean up.
pub proof fn lemma_stop_idempotent(m: EngineModel)
    requires
        m.wf(),
    ensures
        ({
            let (m2, acts2) = spec_stop(m);
            let (m3, acts3) = spec_stop(m2);
            &&& m3 == m2
            &&& acts3.unhook.is_none()
            &&& acts3.destroy_tooltip.is_none()
        }),
{
}

} // verus!

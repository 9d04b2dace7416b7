//! The context bootstrap sequence: a single-shot sequence triggered by the
//! window-creation event. It acquires a drawable surface, matches and
//! applies a pixel format, creates and activates a rendering context,
//! resolves one core and one extension function, then unconditionally tears
//! the context down (whenever one was created) and signals shutdown. Every
//! other window event is passed through to default handling untouched.
use vstd::prelude::*;

use crate::errors::BootstrapFault;
use crate::machine::{BootstrapEvent, BootstrapMachine, BootstrapAction};
use crate::platform::BootstrapResponses;
use crate::resolver::{resolve_spec, Resolution};

verus! {

/// Message code of the window-creation event.
pub const WM_CREATE: u32 = 1;

/// What the event callback does with one message.
#[derive(Clone, Copy, Debug, PartialEq, Eq)]
pub enum EventDisposition {
    /// The creation event: run the bootstrap sequence, then forward.
    RunBootstrap,
    /// Any other event: forward to the platform's default processor
    /// unchanged.
    ForwardToDefault,
}

/// Dispatch decision of the event callback: the creation event is the one
/// message this system owns; everything else is passed through.
pub fn classify_event(msg: u32) -> (r: EventDisposition)
    ensures
        r == (if msg == WM_CREATE {
            EventDisposition::RunBootstrap
        } else {
            EventDisposition::ForwardToDefault
        }),
{
    if msg == WM_CREATE {
        EventDisposition::RunBootstrap
    } else {
        EventDisposition::ForwardToDefault
    }
}

/// Everything one run of the bootstrap sequence did and found, step by step.
#[derive(Debug)]
pub struct BootstrapReport {
    /// Overall outcome: success, or the first step that failed.
    pub outcome: Result<(), BootstrapFault>,
    /// The surface acquired, if step one succeeded.
    pub surface: Option<usize>,
    /// The pixel format matched, if one was.
    pub format: Option<i32>,
    /// Whether the matched format was applied to the surface.
    pub format_applied: bool,
    /// The rendering context created, if one was.
    pub context: Option<usize>,
    /// Whether the context was made current on the calling thread.
    pub context_activated: bool,
    /// The version text queried from the active context.
    pub version: Option<String>,
    /// Resolution of the core query function, attempted only while the
    /// context was active.
    pub core: Option<Resolution>,
    /// Resolution of the extension function, attempted only while the
    /// context was active.
    pub ext: Option<Resolution>,
    /// Whether the rendering context was deleted again. Holds exactly when
    /// one was created, whatever happened in the later steps.
    pub context_deleted: bool,
    /// Whether process-wide shutdown was requested. Holds on every run.
    pub quit_signaled: bool,
}

/// Steps one and two succeeded: a surface was acquired and a format matched.
pub open spec fn format_found(p: BootstrapResponses) -> bool {
    p.surface != 0 && p.format != 0
}

/// Steps one to four succeeded: a rendering context was created.
pub open spec fn context_created(p: BootstrapResponses) -> bool {
    format_found(p) && p.apply_ok && p.context != 0
}

/// Steps one to five succeeded: the context is active on the calling thread.
pub open spec fn context_activated(p: BootstrapResponses) -> bool {
    context_created(p) && p.make_current_ok
}

/// The first fault of the sequence, if any: each step's failure is decided
/// by the platform's answer to it, and a step is only reached when every
/// earlier one succeeded.
pub open spec fn bootstrap_outcome(p: BootstrapResponses) -> Result<(), BootstrapFault> {
    if p.surface == 0 {
        Err(BootstrapFault::SurfaceAcquisitionFailed)
    } else if p.format == 0 {
        Err(BootstrapFault::NoMatchingPixelFormat)
    } else if !p.apply_ok {
        Err(BootstrapFault::PixelFormatApplyFailed)
    } else if p.context == 0 {
        Err(BootstrapFault::ContextCreationFailed)
    } else if !p.make_current_ok {
        Err(BootstrapFault::ContextActivationFailed)
    } else {
        Ok(())
    }
}

/// The whole bootstrap sequence as a function of the platform's answers:
/// what is acquired, queried and resolved, that cleanup runs exactly when a
/// context was created, and that shutdown is signaled on every run.
pub open spec fn bootstrap_spec(p: BootstrapResponses) -> BootstrapReport {
    BootstrapReport {
        outcome: bootstrap_outcome(p),
        surface: if p.surface != 0 {
            Some(p.surface)
        } else {
            None
        },
        format: if format_found(p) {
            Some(p.format)
        } else {
            None
        },
        format_applied: format_found(p) && p.apply_ok,
        context: if context_created(p) {
            Some(p.context)
        } else {
            None
        },
        context_activated: context_activated(p),
        version: if context_activated(p) {
            Some(p.version)
        } else {
            None
        },
        core: if context_activated(p) {
            Some(resolve_spec(p.core_query.primary, p.module, p.core_query.symbol))
        } else {
            None
        },
        ext: if context_activated(p) {
            Some(resolve_spec(p.ext_query.primary, p.module, p.ext_query.symbol))
        } else {
            None
        },
        context_deleted: context_created(p),
        quit_signaled: true,
    }
}

/// The report a finished machine run yields: its faults, acquisitions and
/// findings, read out field by field.
pub open spec fn report_of(m: BootstrapMachine) -> BootstrapReport {
    BootstrapReport {
        outcome: match m.fault {
            Some(f) => Err(f),
            None => Ok(()),
        },
        surface: if m.surface != 0 {
            Some(m.surface)
        } else {
            None
        },
        format: if m.format != 0 {
            Some(m.format)
        } else {
            None
        },
        format_applied: m.format_applied,
        context: if m.context != 0 {
            Some(m.context)
        } else {
            None
        },
        context_activated: m.activated,
        version: m.version,
        core: m.core,
        ext: m.ext,
        context_deleted: m.context_deleted,
        quit_signaled: m.quit_signaled,
    }
}

/// Reads a finished machine out into the report of its run.
fn machine_report(m: BootstrapMachine) -> (r: BootstrapReport)
    ensures
        r == report_of(m),
{
    let BootstrapMachine {
        phase: _,
        fault,
        surface,
        format,
        format_applied,
        context,
        activated,
        version,
        core,
        ext,
        context_deleted,
        quit_signaled,
    } = m;
    BootstrapReport {
        outcome: match fault {
            Some(f) => Err(f),
            None => Ok(()),
        },
        surface: if surface != 0 {
            Some(surface)
        } else {
            None
        },
        format: if format != 0 {
            Some(format)
        } else {
            None
        },
        format_applied,
        context: if context != 0 {
            Some(context)
        } else {
            None
        },
        context_activated: activated,
        version,
        core,
        ext,
        context_deleted,
        quit_signaled,
    }
}

/// Runs the bootstrap sequence over the platform's answers, driving the
/// event machine exactly as a real driver would: each action is answered
/// with the recorded response to that call. Each step fails exactly on the
/// platform's failure answer to it; a failure aborts the remainder, but the
/// context, once created, is always deleted again, and shutdown is always
/// signaled.
pub fn run_bootstrap(responses: BootstrapResponses) -> (r: BootstrapReport)
    ensures
        r == bootstrap_spec(responses),
{
    let BootstrapResponses {
        surface,
        format,
        apply_ok,
        context,
        make_current_ok,
        version,
        module,
        core_query,
        ext_query,
    } = responses;
    let (mut machine, _) = BootstrapMachine::start();
    let action = machine.on_event(BootstrapEvent::Surface(surface));
    if matches!(action, BootstrapAction::SignalQuit) {
        return machine_report(machine);
    }
    let action = machine.on_event(BootstrapEvent::Format(format));
    if matches!(action, BootstrapAction::SignalQuit) {
        return machine_report(machine);
    }
    let action = machine.on_event(BootstrapEvent::Applied(apply_ok));
    if matches!(action, BootstrapAction::SignalQuit) {
        return machine_report(machine);
    }
    let action = machine.on_event(BootstrapEvent::Context(context));
    if matches!(action, BootstrapAction::SignalQuit) {
        return machine_report(machine);
    }
    let action = machine.on_event(BootstrapEvent::Activated(make_current_ok));
    if matches!(action, BootstrapAction::DeleteContext { .. }) {
        let _ = machine.on_event(BootstrapEvent::Deleted);
        return machine_report(machine);
    }
    let _ = machine.on_event(BootstrapEvent::Version(version));
    let action = machine.on_event(BootstrapEvent::PrimaryAddress(core_query.primary));
    if matches!(action, BootstrapAction::QueryFallback { .. }) {
        // a null module makes the direct symbol lookup answer null as well
        let symbol: usize = if module == 0 {
            0
        } else {
            core_query.symbol
        };
        let _ = machine.on_event(BootstrapEvent::SymbolAddress(symbol));
    }
    let action = machine.on_event(BootstrapEvent::PrimaryAddress(ext_query.primary));
    if matches!(action, BootstrapAction::QueryFallback { .. }) {
        let symbol: usize = if module == 0 {
            0
        } else {
            ext_query.symbol
        };
        let _ = machine.on_event(BootstrapEvent::SymbolAddress(symbol));
    }
    let _ = machine.on_event(BootstrapEvent::Deleted);
    machine_report(machine)
}

/// Cleanup law: the rendering context is deleted exactly when one was
/// created — whatever the later activation and resolution steps did — and
/// never when context creation itself failed.
pub proof fn lemma_cleanup_iff_context_created(p: BootstrapResponses)
    ensures
        bootstrap_spec(p).context_deleted <==> bootstrap_spec(p).context is Some,
        bootstrap_spec(p).context_deleted <==> (p.surface != 0 && p.format != 0 && p.apply_ok
            && p.context != 0),
{
}

/// Shutdown law: the bootstrap sequence signals process-wide shutdown on
/// every run, success and every failure alike.
pub proof fn lemma_quit_always_signaled(p: BootstrapResponses)
    ensures
        bootstrap_spec(p).quit_signaled,
{
}

} // verus!

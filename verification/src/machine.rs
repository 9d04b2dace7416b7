//! The bootstrap sequence as an explicit state machine. The platform's
//! event callback is a thin adapter: it feeds each platform answer in as an
//! event, and the machine answers with the next platform action to perform.
//! A driver — the verified one over recorded answers, or a real one making
//! the calls — owns the loop; the decisions all live here.
use vstd::prelude::*;

use crate::errors::BootstrapFault;
use crate::resolver::{is_reserved_sentinel, Resolution};

verus! {

/// Query identifier of the human-readable version text.
pub const GL_VERSION: u32 = 0x1F02;

/// The two entry points the demonstration resolves: one core query function
/// and one extension function.
#[derive(Clone, Copy, Debug, PartialEq, Eq)]
pub enum ProcName {
    /// The core string-query entry point.
    GlGetString,
    /// The context-creation extension entry point.
    WglCreateContextAttribsArb,
}

impl ProcName {
    /// The entry-point name the platform is asked for.
    pub fn symbol_name(&self) -> (r: &'static str)
        ensures
            *self == ProcName::GlGetString ==> r@ == "glGetString"@,
            *self == ProcName::WglCreateContextAttribsArb ==> r@
                == "wglCreateContextAttribsARB"@,
    {
        match self {
            ProcName::GlGetString => "glGetString",
            ProcName::WglCreateContextAttribsArb => "wglCreateContextAttribsARB",
        }
    }
}

/// Where the machine stands: which platform answer it is waiting for.
#[derive(Clone, Copy, Debug, PartialEq, Eq)]
pub enum Phase {
    /// Waiting for the window's drawable surface.
    AwaitSurface,
    /// Waiting for the pixel format matched to the template.
    AwaitFormat,
    /// Waiting for the format to be applied to the surface.
    AwaitApply,
    /// Waiting for the rendering context.
    AwaitContext,
    /// Waiting for the context to be made current.
    AwaitActivation,
    /// Waiting for the version text.
    AwaitVersion,
    /// Waiting for the primary query's answer on the core entry point.
    AwaitCorePrimary,
    /// Waiting for the fallback module lookup on the core entry point.
    AwaitCoreFallback,
    /// Waiting for the primary query's answer on the extension entry point.
    AwaitExtPrimary,
    /// Waiting for the fallback module lookup on the extension entry point.
    AwaitExtFallback,
    /// Waiting for the context deletion to be carried out.
    AwaitDeletion,
    /// The sequence is over; no further event is admissible.
    Done,
}

/// A platform answer handed to the machine.
#[derive(Debug)]
pub enum BootstrapEvent {
    /// The surface handle; null when acquisition failed.
    Surface(usize),
    /// The matched pixel format; zero when none matched.
    Format(i32),
    /// Whether applying the format succeeded.
    Applied(bool),
    /// The rendering context handle; null when creation failed.
    Context(usize),
    /// Whether making the context current succeeded.
    Activated(bool),
    /// The version text the active context reports.
    Version(String),
    /// The primary query's address word for the entry point just asked for.
    PrimaryAddress(usize),
    /// The fallback module lookup's address word; null when the module could
    /// not be loaded or the symbol is absent.
    SymbolAddress(usize),
    /// The context deletion was carried out.
    Deleted,
}

/// The next platform action the machine asks its driver to perform.
#[derive(Clone, Copy, Debug, PartialEq, Eq)]
pub enum BootstrapAction {
    /// Acquire the window's drawable surface.
    AcquireSurface,
    /// Match the pixel-format template against the surface's formats.
    ChooseFormat { surface: usize },
    /// Apply the matched format to the surface.
    ApplyFormat { surface: usize, format: i32 },
    /// Create a rendering context on the surface.
    CreateContext { surface: usize },
    /// Make the context current on the calling thread.
    MakeCurrent { surface: usize, context: usize },
    /// Query the given string from the active context.
    QueryVersion { query: u32 },
    /// Ask the primary extension-address query for the entry point.
    QueryPrimary { name: ProcName },
    /// Load (or reuse) the base OpenGL module and look the entry point up
    /// directly; answer null if either step fails.
    QueryFallback { name: ProcName },
    /// Delete the rendering context.
    DeleteContext { context: usize },
    /// Signal process-wide shutdown; the sequence is over.
    SignalQuit,
}

/// The machine itself: the phase it is in and everything the sequence has
/// acquired or found so far. Zero handles mean "not acquired".
#[derive(Debug)]
pub struct BootstrapMachine {
    /// Which platform answer the machine waits for.
    pub phase: Phase,
    /// The first fault of the sequence, if one occurred.
    pub fault: Option<BootstrapFault>,
    /// The acquired surface; null until step one succeeds.
    pub surface: usize,
    /// The matched pixel format; zero until step two succeeds.
    pub format: i32,
    /// Whether the format was applied to the surface.
    pub format_applied: bool,
    /// The created rendering context; null until step four succeeds.
    pub context: usize,
    /// Whether the context was made current.
    pub activated: bool,
    /// The version text, once queried.
    pub version: Option<String>,
    /// Resolution of the core entry point, once finished.
    pub core: Option<Resolution>,
    /// Resolution of the extension entry point, once finished.
    pub ext: Option<Resolution>,
    /// Whether the context was deleted again.
    pub context_deleted: bool,
    /// Whether process-wide shutdown was requested.
    pub quit_signaled: bool,
}

/// True when the event is the answer the machine's phase waits for.
pub open spec fn expects(phase: Phase, e: BootstrapEvent) -> bool {
    match (phase, e) {
        (Phase::AwaitSurface, BootstrapEvent::Surface(_)) => true,
        (Phase::AwaitFormat, BootstrapEvent::Format(_)) => true,
        (Phase::AwaitApply, BootstrapEvent::Applied(_)) => true,
        (Phase::AwaitContext, BootstrapEvent::Context(_)) => true,
        (Phase::AwaitActivation, BootstrapEvent::Activated(_)) => true,
        (Phase::AwaitVersion, BootstrapEvent::Version(_)) => true,
        (Phase::AwaitCorePrimary, BootstrapEvent::PrimaryAddress(_)) => true,
        (Phase::AwaitCoreFallback, BootstrapEvent::SymbolAddress(_)) => true,
        (Phase::AwaitExtPrimary, BootstrapEvent::PrimaryAddress(_)) => true,
        (Phase::AwaitExtFallback, BootstrapEvent::SymbolAddress(_)) => true,
        (Phase::AwaitDeletion, BootstrapEvent::Deleted) => true,
        _ => false,
    }
}

/// The transition relation: what one admissible event does to the machine,
/// and which platform action the driver is asked to perform next. Each
/// step's failure answer records the fault and skips ahead — to the
/// unconditional context deletion when a context exists, straight to the
/// shutdown signal when none does.
pub open spec fn machine_next(m: BootstrapMachine, e: BootstrapEvent) -> (
    BootstrapMachine,
    BootstrapAction,
) {
    match (m.phase, e) {
        (Phase::AwaitSurface, BootstrapEvent::Surface(h)) => if h == 0 {
            (
                BootstrapMachine {
                    phase: Phase::Done,
                    fault: Some(BootstrapFault::SurfaceAcquisitionFailed),
                    quit_signaled: true,
                    ..m
                },
                BootstrapAction::SignalQuit,
            )
        } else {
            (
                BootstrapMachine { phase: Phase::AwaitFormat, surface: h, ..m },
                BootstrapAction::ChooseFormat { surface: h },
            )
        },
        (Phase::AwaitFormat, BootstrapEvent::Format(f)) => if f == 0 {
            (
                BootstrapMachine {
                    phase: Phase::Done,
                    fault: Some(BootstrapFault::NoMatchingPixelFormat),
                    quit_signaled: true,
                    ..m
                },
                BootstrapAction::SignalQuit,
            )
        } else {
            (
                BootstrapMachine { phase: Phase::AwaitApply, format: f, ..m },
                BootstrapAction::ApplyFormat { surface: m.surface, format: f },
            )
        },
        (Phase::AwaitApply, BootstrapEvent::Applied(ok)) => if !ok {
            (
                BootstrapMachine {
                    phase: Phase::Done,
                    fault: Some(BootstrapFault::PixelFormatApplyFailed),
                    quit_signaled: true,
                    ..m
                },
                BootstrapAction::SignalQuit,
            )
        } else {
            (
                BootstrapMachine { phase: Phase::AwaitContext, format_applied: true, ..m },
                BootstrapAction::CreateContext { surface: m.surface },
            )
        },
        (Phase::AwaitContext, BootstrapEvent::Context(c)) => if c == 0 {
            (
                BootstrapMachine {
                    phase: Phase::Done,
                    fault: Some(BootstrapFault::ContextCreationFailed),
                    quit_signaled: true,
                    ..m
                },
                BootstrapAction::SignalQuit,
            )
        } else {
            (
                BootstrapMachine { phase: Phase::AwaitActivation, context: c, ..m },
                BootstrapAction::MakeCurrent { surface: m.surface, context: c },
            )
        },
        (Phase::AwaitActivation, BootstrapEvent::Activated(ok)) => if !ok {
            // a context exists, so the unconditional cleanup still runs
            (
                BootstrapMachine {
                    phase: Phase::AwaitDeletion,
                    fault: Some(BootstrapFault::ContextActivationFailed),
                    ..m
                },
                BootstrapAction::DeleteContext { context: m.context },
            )
        } else {
            (
                BootstrapMachine { phase: Phase::AwaitVersion, activated: true, ..m },
                BootstrapAction::QueryVersion { query: GL_VERSION },
            )
        },
        (Phase::AwaitVersion, BootstrapEvent::Version(s)) => (
            BootstrapMachine { phase: Phase::AwaitCorePrimary, version: Some(s), ..m },
            BootstrapAction::QueryPrimary { name: ProcName::GlGetString },
        ),
        (Phase::AwaitCorePrimary, BootstrapEvent::PrimaryAddress(p)) => if is_reserved_sentinel(
            p,
        ) {
            (
                BootstrapMachine { phase: Phase::AwaitCoreFallback, ..m },
                BootstrapAction::QueryFallback { name: ProcName::GlGetString },
            )
        } else {
            (
                BootstrapMachine {
                    phase: Phase::AwaitExtPrimary,
                    core: Some(Resolution { fallback_used: false, address: Some(p) }),
                    ..m
                },
                BootstrapAction::QueryPrimary { name: ProcName::WglCreateContextAttribsArb },
            )
        },
        (Phase::AwaitCoreFallback, BootstrapEvent::SymbolAddress(s)) => (
            BootstrapMachine {
                phase: Phase::AwaitExtPrimary,
                core: Some(
                    Resolution {
                        fallback_used: true,
                        address: if s == 0 {
                            None
                        } else {
                            Some(s)
                        },
                    },
                ),
                ..m
            },
            BootstrapAction::QueryPrimary { name: ProcName::WglCreateContextAttribsArb },
        ),
        (Phase::AwaitExtPrimary, BootstrapEvent::PrimaryAddress(p)) => if is_reserved_sentinel(
            p,
        ) {
            (
                BootstrapMachine { phase: Phase::AwaitExtFallback, ..m },
                BootstrapAction::QueryFallback { name: ProcName::WglCreateContextAttribsArb },
            )
        } else {
            (
                BootstrapMachine {
                    phase: Phase::AwaitDeletion,
                    ext: Some(Resolution { fallback_used: false, address: Some(p) }),
                    ..m
                },
                BootstrapAction::DeleteContext { context: m.context },
            )
        },
        (Phase::AwaitExtFallback, BootstrapEvent::SymbolAddress(s)) => (
            BootstrapMachine {
                phase: Phase::AwaitDeletion,
                ext: Some(
                    Resolution {
                        fallback_used: true,
                        address: if s == 0 {
                            None
                        } else {
                            Some(s)
                        },
                    },
                ),
                ..m
            },
            BootstrapAction::DeleteContext { context: m.context },
        ),
        (Phase::AwaitDeletion, BootstrapEvent::Deleted) => (
            BootstrapMachine {
                phase: Phase::Done,
                context_deleted: true,
                quit_signaled: true,
                ..m
            },
            BootstrapAction::SignalQuit,
        ),
        _ => (m, BootstrapAction::SignalQuit),
    }
}

/// Well-formedness of a machine state: each phase is only ever entered with
/// everything the protocol's ordering owes it — a surface before a format is
/// chosen, an applied format before a context is created, a created context
/// before activation, resolution only on an active context, and deletion
/// only of a context that exists.
pub open spec fn machine_inv(m: BootstrapMachine) -> bool {
    &&& (m.phase == Phase::AwaitFormat ==> m.surface != 0)
    &&& (m.phase == Phase::AwaitApply ==> m.surface != 0 && m.format != 0)
    &&& (m.phase == Phase::AwaitContext ==> m.surface != 0 && m.format != 0 && m.format_applied)
    &&& (m.phase == Phase::AwaitActivation ==> m.surface != 0 && m.format != 0
        && m.format_applied && m.context != 0)
    &&& (m.phase == Phase::AwaitVersion ==> m.context != 0 && m.activated)
    &&& (m.phase == Phase::AwaitCorePrimary || m.phase == Phase::AwaitCoreFallback
        || m.phase == Phase::AwaitExtPrimary || m.phase == Phase::AwaitExtFallback
        ==> m.context != 0 && m.activated && m.version is Some)
    &&& (m.phase == Phase::AwaitDeletion ==> m.context != 0)
    &&& (m.context_deleted ==> m.context != 0)
}

/// Ordering law: every admissible event preserves well-formedness, so the
/// protocol can never ask for a format without a surface, activate a context
/// that was not created, resolve without an active context, or delete a
/// context that does not exist.
pub proof fn lemma_machine_inv_preserved(m: BootstrapMachine, e: BootstrapEvent)
    requires
        machine_inv(m),
        expects(m.phase, e),
    ensures
        machine_inv(machine_next(m, e).0),
{
}

impl BootstrapMachine {
    /// A machine at the start of the sequence, with the first action to
    /// perform: acquiring the window's surface.
    pub fn start() -> (r: (BootstrapMachine, BootstrapAction))
        ensures
            r.0.phase == Phase::AwaitSurface,
            r.0.fault is None,
            r.0.surface == 0 && r.0.format == 0 && !r.0.format_applied,
            r.0.context == 0 && !r.0.activated,
            r.0.version is None && r.0.core is None && r.0.ext is None,
            !r.0.context_deleted && !r.0.quit_signaled,
            machine_inv(r.0),
            r.1 == BootstrapAction::AcquireSurface,
    {
        (
            BootstrapMachine {
                phase: Phase::AwaitSurface,
                fault: None,
                surface: 0,
                format: 0,
                format_applied: false,
                context: 0,
                activated: false,
                version: None,
                core: None,
                ext: None,
                context_deleted: false,
                quit_signaled: false,
            },
            BootstrapAction::AcquireSurface,
        )
    }

    /// Feeds the machine the platform's answer to the action it last asked
    /// for, and returns the next action to perform.
    pub fn on_event(&mut self, event: BootstrapEvent) -> (r: BootstrapAction)
        requires
            expects(old(self).phase, event),
        ensures
            (*final(self), r) == machine_next(*old(self), event),
    {
        match (self.phase, event) {
            (Phase::AwaitSurface, BootstrapEvent::Surface(h)) => {
                if h == 0 {
                    self.phase = Phase::Done;
                    self.fault = Some(BootstrapFault::SurfaceAcquisitionFailed);
                    self.quit_signaled = true;
                    BootstrapAction::SignalQuit
                } else {
                    self.phase = Phase::AwaitFormat;
                    self.surface = h;
                    BootstrapAction::ChooseFormat { surface: h }
                }
            },
            (Phase::AwaitFormat, BootstrapEvent::Format(f)) => {
                if f == 0 {
                    self.phase = Phase::Done;
                    self.fault = Some(BootstrapFault::NoMatchingPixelFormat);
                    self.quit_signaled = true;
                    BootstrapAction::SignalQuit
                } else {
                    self.phase = Phase::AwaitApply;
                    self.format = f;
                    BootstrapAction::ApplyFormat { surface: self.surface, format: f }
                }
            },
            (Phase::AwaitApply, BootstrapEvent::Applied(ok)) => {
                if !ok {
                    self.phase = Phase::Done;
                    self.fault = Some(BootstrapFault::PixelFormatApplyFailed);
                    self.quit_signaled = true;
                    BootstrapAction::SignalQuit
                } else {
                    self.phase = Phase::AwaitContext;
                    self.format_applied = true;
                    BootstrapAction::CreateContext { surface: self.surface }
                }
            },
            (Phase::AwaitContext, BootstrapEvent::Context(c)) => {
                if c == 0 {
                    self.phase = Phase::Done;
                    self.fault = Some(BootstrapFault::ContextCreationFailed);
                    self.quit_signaled = true;
                    BootstrapAction::SignalQuit
                } else {
                    self.phase = Phase::AwaitActivation;
                    self.context = c;
                    BootstrapAction::MakeCurrent { surface: self.surface, context: c }
                }
            },
            (Phase::AwaitActivation, BootstrapEvent::Activated(ok)) => {
                if !ok {
                    self.phase = Phase::AwaitDeletion;
                    self.fault = Some(BootstrapFault::ContextActivationFailed);
                    BootstrapAction::DeleteContext { context: self.context }
                } else {
                    self.phase = Phase::AwaitVersion;
                    self.activated = true;
                    BootstrapAction::QueryVersion { query: GL_VERSION }
                }
            },
            (Phase::AwaitVersion, BootstrapEvent::Version(s)) => {
                self.phase = Phase::AwaitCorePrimary;
                self.version = Some(s);
                BootstrapAction::QueryPrimary { name: ProcName::GlGetString }
            },
            (Phase::AwaitCorePrimary, BootstrapEvent::PrimaryAddress(p)) => {
                if p == 0 || p == 1 || p == 2 || p == 3 || p == usize::MAX {
                    self.phase = Phase::AwaitCoreFallback;
                    BootstrapAction::QueryFallback { name: ProcName::GlGetString }
                } else {
                    self.phase = Phase::AwaitExtPrimary;
                    self.core = Some(Resolution { fallback_used: false, address: Some(p) });
                    BootstrapAction::QueryPrimary { name: ProcName::WglCreateContextAttribsArb }
                }
            },
            (Phase::AwaitCoreFallback, BootstrapEvent::SymbolAddress(s)) => {
                self.phase = Phase::AwaitExtPrimary;
                self.core = Some(
                    Resolution {
                        fallback_used: true,
                        address: if s == 0 {
                            None
                        } else {
                            Some(s)
                        },
                    },
                );
                BootstrapAction::QueryPrimary { name: ProcName::WglCreateContextAttribsArb }
            },
            (Phase::AwaitExtPrimary, BootstrapEvent::PrimaryAddress(p)) => {
                if p == 0 || p == 1 || p == 2 || p == 3 || p == usize::MAX {
                    self.phase = Phase::AwaitExtFallback;
                    BootstrapAction::QueryFallback { name: ProcName::WglCreateContextAttribsArb }
                } else {
                    self.phase = Phase::AwaitDeletion;
                    self.ext = Some(Resolution { fallback_used: false, address: Some(p) });
                    BootstrapAction::DeleteContext { context: self.context }
                }
            },
            (Phase::AwaitExtFallback, BootstrapEvent::SymbolAddress(s)) => {
                self.phase = Phase::AwaitDeletion;
                self.ext = Some(
                    Resolution {
                        fallback_used: true,
                        address: if s == 0 {
                            None
                        } else {
                            Some(s)
                        },
                    },
                );
                BootstrapAction::DeleteContext { context: self.context }
            },
            (Phase::AwaitDeletion, BootstrapEvent::Deleted) => {
                self.phase = Phase::Done;
                self.context_deleted = true;
                self.quit_signaled = true;
                BootstrapAction::SignalQuit
            },
            (_, _) => BootstrapAction::SignalQuit,
        }
    }
}

} // verus!

//! The window registrar: a caller-owned context object holding the one
//! process-wide piece of state, the window-class registration token. It
//! registers the class at most once, and builds the window-creation request
//! — encoded title, clamped dimensions, fixed class and style — from which
//! the platform call is made.
use vstd::prelude::*;

use crate::bootstrap::{bootstrap_spec, run_bootstrap, BootstrapReport};
use crate::encoding::{class_name_units, encode_title, utf16_of, TITLE_CAPACITY};
use crate::errors::StartupError;
use crate::platform::PlatformResponses;

verus! {

/// Class style: every window of the class gets its own private drawing
/// resources.
pub const CS_OWNDC: u32 = 0x20;

/// Identifier of the platform's default arrow cursor.
pub const IDC_ARROW: u32 = 32512;

/// Color index used as the default class background.
pub const COLOR_BACKGROUND: u32 = 1;

/// Window style: an ordinary overlapped window.
pub const WS_OVERLAPPEDWINDOW: u32 = 0x00CF0000;

/// Window style: the window is visible from the start.
pub const WS_VISIBLE: u32 = 0x10000000;

/// The style every window of this system is created with.
pub const WINDOW_STYLE: u32 = WS_OVERLAPPEDWINDOW | WS_VISIBLE;

/// Extended window style: none beyond the default left-to-right layout.
pub const WS_EX_LEFT: u32 = 0;

/// The largest window dimension the platform's signed 32-bit dimension type
/// can carry.
pub const MAX_DIMENSION: u32 = 0x7FFFFFFF;

/// The class descriptor handed to the platform's registration call.
#[derive(Debug)]
pub struct ClassDescriptor {
    /// Class style flags.
    pub style: u32,
    /// The class name as a sentinel-terminated UTF-16 unit sequence.
    pub class_name: Vec<u16>,
    /// Identifier of the cursor the class uses.
    pub cursor: u32,
    /// Color index of the class background.
    pub background_color_index: u32,
    /// Whether the class is owned by the base executable image.
    pub uses_base_image: bool,
    /// Whether the class carries the event-dispatch callback.
    pub has_dispatch_callback: bool,
    /// Extra bytes allocated after the class structure.
    pub extra_class_bytes: u32,
    /// Extra bytes allocated after each window structure.
    pub extra_window_bytes: u32,
    /// Whether the class carries an icon of its own.
    pub has_icon: bool,
    /// Whether the class names a menu.
    pub has_menu_name: bool,
}

/// Builds the descriptor this system registers its window class with:
/// per-window-private drawing resources, the fixed class name, the base
/// executable image as owner, the default cursor and background, the
/// dispatch callback, and nothing else.
pub fn class_descriptor() -> (r: ClassDescriptor)
    ensures
        r.style == CS_OWNDC,
        r.class_name@ == utf16_of("MiniGL"@) + seq![0u16],
        r.cursor == IDC_ARROW,
        r.background_color_index == COLOR_BACKGROUND,
        r.uses_base_image,
        r.has_dispatch_callback,
        r.extra_class_bytes == 0,
        r.extra_window_bytes == 0,
        !r.has_icon,
        !r.has_menu_name,
{
    ClassDescriptor {
        style: CS_OWNDC,
        class_name: class_name_units(),
        cursor: IDC_ARROW,
        background_color_index: COLOR_BACKGROUND,
        uses_base_image: true,
        has_dispatch_callback: true,
        extra_class_bytes: 0,
        extra_window_bytes: 0,
        has_icon: false,
        has_menu_name: false,
    }
}

/// The caller-owned window-system context: the registration token, if the
/// class has been registered, and a count of the platform registration
/// calls issued on its behalf — the observable that registration happens at
/// most once.
#[derive(Debug)]
pub struct WindowSystem {
    /// The class token the platform returned, or nothing while the class is
    /// unregistered.
    pub class: Option<u16>,
    /// How many platform registration calls have been issued.
    pub registration_calls: u64,
}

/// What one `ensure_registered` call does to the system, as a function of
/// its prior state and of the class token the platform's registration call
/// would return: an already registered system is returned untouched with its
/// existing token; otherwise exactly one registration call is issued, and a
/// zero token is the platform's rejection.
pub open spec fn ensure_registered_spec(s: WindowSystem, platform_atom: u16) -> (
    WindowSystem,
    Result<u16, StartupError>,
) {
    match s.class {
        Some(a) => (s, Result::<u16, StartupError>::Ok(a)),
        None => if platform_atom != 0 {
            (
                WindowSystem {
                    class: Some(platform_atom),
                    registration_calls: (s.registration_calls + 1) as u64,
                },
                Result::<u16, StartupError>::Ok(platform_atom),
            )
        } else {
            (
                WindowSystem {
                    class: None,
                    registration_calls: (s.registration_calls + 1) as u64,
                },
                Result::<u16, StartupError>::Err(StartupError::RegistrationFailed),
            )
        },
    }
}

impl WindowSystem {
    /// A fresh window system: unregistered, no platform call issued yet.
    pub fn new() -> (r: WindowSystem)
        ensures
            r.class is None,
            r.registration_calls == 0,
    {
        WindowSystem { class: None, registration_calls: 0 }
    }

    /// Registers the window class if it is not registered yet. An existing
    /// registration is returned as it is, without any platform call; a
    /// first-time call issues exactly one platform registration, whose
    /// answer `platform_atom` models — a zero token means the platform
    /// rejected it, a fatal startup fault.
    pub fn ensure_registered(&mut self, platform_atom: u16) -> (r: Result<u16, StartupError>)
        requires
            old(self).registration_calls < u64::MAX,
        ensures
            (*final(self), r) == ensure_registered_spec(*old(self), platform_atom),
    {
        match self.class {
            Some(a) => Ok(a),
            None => {
                self.registration_calls = self.registration_calls + 1;
                if platform_atom != 0 {
                    self.class = Some(platform_atom);
                    Ok(platform_atom)
                } else {
                    Err(StartupError::RegistrationFailed)
                }
            },
        }
    }
}

/// The states and results of a run of `ensure_registered` calls, one call
/// per entry of `atoms` — each entry the token the platform would return if
/// that call were to register.
pub open spec fn run_registrations(s: WindowSystem, atoms: Seq<u16>) -> (
    WindowSystem,
    Seq<Result<u16, StartupError>>,
)
    decreases atoms.len(),
{
    if atoms.len() == 0 {
        (s, Seq::<Result<u16, StartupError>>::empty())
    } else {
        let (s1, r1) = ensure_registered_spec(s, atoms[0]);
        let (s2, rest) = run_registrations(s1, atoms.drop_first());
        (s2, seq![r1] + rest)
    }
}

/// A registered system is a fixed point: any further run of
/// `ensure_registered` calls leaves it untouched and returns the existing
/// token every time.
pub proof fn lemma_registered_is_fixed_point(s: WindowSystem, atoms: Seq<u16>, a: u16)
    requires
        s.class == Some(a),
    ensures
        ({
            let (s2, results) = run_registrations(s, atoms);
            &&& s2 == s
            &&& results.len() == atoms.len()
            &&& forall|i: int|
                0 <= i < results.len() ==> results[i] == Result::<u16, StartupError>::Ok(a)
        }),
    decreases atoms.len(),
{
    if atoms.len() > 0 {
        lemma_registered_is_fixed_point(s, atoms.drop_first(), a);
        let (s1, r1) = ensure_registered_spec(s, atoms[0]);
        let (s2, rest) = run_registrations(s, atoms.drop_first());
        assert(run_registrations(s, atoms).1 == seq![r1] + rest);
    }
}

/// Idempotence law: on an unregistered system whose first registration
/// succeeds, any number of sequential `ensure_registered` calls issues
/// exactly one platform registration call and returns the same token every
/// time.
pub proof fn lemma_registration_idempotent(s: WindowSystem, atoms: Seq<u16>)
    requires
        s.class is None,
        s.registration_calls < u64::MAX,
        atoms.len() >= 1,
        atoms[0] != 0,
    ensures
        ({
            let (s2, results) = run_registrations(s, atoms);
            &&& s2.class == Some(atoms[0])
            &&& s2.registration_calls == s.registration_calls + 1
            &&& results.len() == atoms.len()
            &&& forall|i: int|
                0 <= i < results.len() ==> results[i] == Result::<u16, StartupError>::Ok(atoms[0])
        }),
{
    let (s1, r1) = ensure_registered_spec(s, atoms[0]);
    lemma_registered_is_fixed_point(s1, atoms.drop_first(), atoms[0]);
    let (s2, rest) = run_registrations(s1, atoms.drop_first());
    assert(run_registrations(s, atoms).1 == seq![r1] + rest);
    assert forall|i: int| 0 <= i < atoms.len() implies (seq![r1] + rest)[i] == Result::<
        u16,
        StartupError,
    >::Ok(atoms[0]) by {
        if i > 0 {
            assert((seq![r1] + rest)[i] == rest[i - 1]);
        }
    }
}

/// A requested dimension clamped to the largest value the platform's signed
/// 32-bit dimension type can carry. Values above the ceiling are clamped
/// down, never rejected.
pub open spec fn clamp_dim(v: u32) -> i32 {
    if v > MAX_DIMENSION {
        MAX_DIMENSION as i32
    } else {
        v as i32
    }
}

/// Clamps a requested dimension to the platform's signed 32-bit ceiling.
pub fn clamp_dimension(v: u32) -> (r: i32)
    ensures
        r == clamp_dim(v),
{
    if v > MAX_DIMENSION {
        MAX_DIMENSION as i32
    } else {
        v as i32
    }
}

/// The window-creation request handed to the platform: everything the
/// creation call takes.
#[derive(Debug)]
pub struct WindowRequest {
    /// Extended style flags.
    pub ex_style: u32,
    /// Token of the registered class the window is created from.
    pub class_atom: u16,
    /// The title buffer: encoded units, sentinel, zero padding.
    pub title_units: Vec<u16>,
    /// Style flags.
    pub style: u32,
    /// Whether the platform picks the default position.
    pub use_default_position: bool,
    /// Requested width, already clamped.
    pub width: i32,
    /// Requested height, already clamped.
    pub height: i32,
    /// Whether the window has a parent.
    pub has_parent: bool,
    /// Whether the window has a menu.
    pub has_menu: bool,
    /// Whether the window is owned by the base executable image.
    pub uses_base_image: bool,
    /// Whether a creation-time payload is passed.
    pub has_payload: bool,
}

/// What a well-formed creation request for the given title, dimensions and
/// class token looks like: default extended style and position, the fixed
/// window style, clamped dimensions, no parent, no menu, no payload, the
/// base image as owner, and the title buffer filled as the encoder promises.
pub open spec fn window_request_matches(
    req: WindowRequest,
    atom: u16,
    title: Seq<char>,
    width: u32,
    height: u32,
) -> bool {
    &&& req.ex_style == WS_EX_LEFT
    &&& req.class_atom == atom
    &&& req.style == WINDOW_STYLE
    &&& req.use_default_position
    &&& req.width == clamp_dim(width)
    &&& req.height == clamp_dim(height)
    &&& !req.has_parent
    &&& !req.has_menu
    &&& req.uses_base_image
    &&& !req.has_payload
    &&& req.title_units@.len() == TITLE_CAPACITY
    &&& req.title_units@.subrange(0, utf16_of(title).len() as int) == utf16_of(title)
    &&& forall|j: int| utf16_of(title).len() <= j < TITLE_CAPACITY ==> req.title_units@[j] == 0
}

/// A window created through this system: the platform's handle, the request
/// it was created from, and the report of the bootstrap sequence that the
/// creation event ran before the creation call returned.
#[derive(Debug)]
pub struct CreatedWindow {
    /// The window handle the platform returned.
    pub handle: usize,
    /// The creation request that produced it.
    pub request: WindowRequest,
    /// What the creation-event bootstrap sequence did.
    pub report: BootstrapReport,
}

impl WindowSystem {
    /// Builds the creation request for a window of the registered class:
    /// encodes the title — a title that does not fit is rejected before
    /// anything else happens — and clamps the dimensions to the platform's
    /// signed 32-bit ceiling.
    pub fn build_window_request(&self, title: &str, width: u32, height: u32) -> (r: Result<
        WindowRequest,
        StartupError,
    >)
        requires
            self.class is Some,
        ensures
            match r {
                Ok(req) => {
                    &&& utf16_of(title@).len() < TITLE_CAPACITY
                    &&& window_request_matches(req, self.class.unwrap(), title@, width, height)
                },
                Err(e) => {
                    &&& e == StartupError::TitleTooLong
                    &&& utf16_of(title@).len() >= TITLE_CAPACITY
                },
            },
    {
        let title_units = match encode_title(title) {
            Ok(buf) => buf,
            Err(e) => {
                return Err(e);
            },
        };
        let atom = self.class.unwrap();
        Ok(
            WindowRequest {
                ex_style: WS_EX_LEFT,
                class_atom: atom,
                title_units,
                style: WINDOW_STYLE,
                use_default_position: true,
                width: clamp_dimension(width),
                height: clamp_dimension(height),
                has_parent: false,
                has_menu: false,
                uses_base_image: true,
                has_payload: false,
            },
        )
    }

    /// Creates a window of the registered class. The title is encoded first
    /// — `TitleTooLong` is raised before any platform call — and the
    /// dimensions are clamped, never rejected. A null handle from the
    /// platform is a fatal startup fault. On success the platform has
    /// already delivered the creation event synchronously during the call,
    /// so the returned window carries the full bootstrap report.
    pub fn create_window(
        &self,
        title: &str,
        width: u32,
        height: u32,
        responses: PlatformResponses,
    ) -> (r: Result<CreatedWindow, StartupError>)
        requires
            self.class is Some,
        ensures
            match r {
                Ok(w) => {
                    &&& utf16_of(title@).len() < TITLE_CAPACITY
                    &&& responses.window_handle != 0
                    &&& w.handle == responses.window_handle
                    &&& window_request_matches(w.request, self.class.unwrap(), title@, width, height)
                    &&& w.report == bootstrap_spec(responses.bootstrap)
                },
                Err(e) => {
                    ||| (e == StartupError::TitleTooLong && utf16_of(title@).len()
                        >= TITLE_CAPACITY)
                    ||| (e == StartupError::WindowCreationFailed && utf16_of(title@).len()
                        < TITLE_CAPACITY && responses.window_handle == 0)
                },
            },
    {
        let request = match self.build_window_request(title, width, height) {
            Ok(req) => req,
            Err(e) => {
                return Err(e);
            },
        };
        let PlatformResponses { class_atom: _, window_handle, bootstrap } = responses;
        if window_handle == 0 {
            return Err(StartupError::WindowCreationFailed);
        }
        // the platform delivers the creation event synchronously during the
        // creation call, so the bootstrap sequence has run by the time the
        // handle comes back
        let report = run_bootstrap(bootstrap);
        Ok(CreatedWindow { handle: window_handle, request, report })
    }
}

} // verus!

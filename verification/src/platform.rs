//! The platform boundary as data. Every platform call this system makes is
//! represented by the value it hands back; a driver — real or mock — fills
//! one of these records and the verified core decides everything from it.
//! A zero handle or status models the platform's failure answer throughout.
use vstd::prelude::*;

use crate::resolver::ProcQuery;

verus! {

/// The answers of the platform calls made by the creation-event bootstrap
/// sequence, in the order the sequence consults them.
#[derive(Debug)]
pub struct BootstrapResponses {
    /// Handle of the window's drawable surface; null when acquisition failed.
    pub surface: usize,
    /// Identifier of the pixel format matched to the template; zero when no
    /// format matched.
    pub format: i32,
    /// Whether applying the matched format to the surface succeeded.
    pub apply_ok: bool,
    /// Handle of the rendering context created on the surface; null when
    /// creation failed.
    pub context: usize,
    /// Whether activating the context on the calling thread succeeded.
    pub make_current_ok: bool,
    /// The human-readable version text the active context reports.
    pub version: String,
    /// Handle of the base OpenGL module for fallback symbol lookup; null
    /// when loading it failed.
    pub module: usize,
    /// Answers for resolving the core query function.
    pub core_query: ProcQuery,
    /// Answers for resolving the extension function.
    pub ext_query: ProcQuery,
}

/// The answers of every platform call one full demonstration makes: class
/// registration, window creation, and the bootstrap sequence the creation
/// event triggers.
#[derive(Debug)]
pub struct PlatformResponses {
    /// The class token the registration call returned; zero when the
    /// platform rejected registration.
    pub class_atom: u16,
    /// The window handle the creation call returned; null when the platform
    /// rejected creation.
    pub window_handle: usize,
    /// The answers consulted by the bootstrap sequence.
    pub bootstrap: BootstrapResponses,
}

} // verus!

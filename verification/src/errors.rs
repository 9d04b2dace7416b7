//! Error values for window-system startup and for the context bootstrap
//! sequence.
use vstd::prelude::*;

verus! {

/// A fault raised while bringing the window system up: either a
/// caller-correctable input fault (the title does not fit the fixed title
/// buffer) or a fatal startup fault (the platform rejected class
/// registration or window creation).
#[derive(Clone, Copy, Debug, PartialEq, Eq)]
pub enum StartupError {
    /// The title, once encoded, exceeds the usable title-buffer capacity.
    TitleTooLong,
    /// The platform rejected the window-class registration.
    RegistrationFailed,
    /// The platform rejected the window-creation call.
    WindowCreationFailed,
}

/// A fault inside the context bootstrap sequence. Each step's failure is
/// fatal to the remainder of the sequence, but the unconditional cleanup and
/// shutdown steps still run.
#[derive(Clone, Copy, Debug, PartialEq, Eq)]
pub enum BootstrapFault {
    /// No drawable surface could be acquired for the window.
    SurfaceAcquisitionFailed,
    /// The platform found no pixel format matching the template.
    NoMatchingPixelFormat,
    /// The matched pixel format could not be applied to the surface.
    PixelFormatApplyFailed,
    /// No rendering context could be created on the surface.
    ContextCreationFailed,
    /// The rendering context could not be made current on the calling thread.
    ContextActivationFailed,
}

} // verus!

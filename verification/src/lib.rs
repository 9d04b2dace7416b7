//! Bootstrap core for a single on-screen window with an OpenGL rendering
//! context: one-time window-class registration, idempotent window creation,
//! the creation-event sequence that builds and tears down a rendering
//! context, and two-tier resolution of extension function pointers.
//!
//! Every platform call (class registration, window creation, surface and
//! context management, symbol lookup) is represented by the value it hands
//! back, so the whole protocol is a function from those responses to a
//! report and is verified for every outcome the platform can produce. An
//! unverified shell performs the real calls and feeds the results in.
use vstd::prelude::*;

pub mod bootstrap;
pub mod encoding;
pub mod errors;
pub mod machine;
pub mod pixel;
pub mod platform;
pub mod registrar;
pub mod resolver;

use crate::bootstrap::bootstrap_spec;
use crate::encoding::{utf16_of, TITLE_CAPACITY};
use crate::errors::StartupError;
use crate::platform::PlatformResponses;
use crate::registrar::{window_request_matches, CreatedWindow, WindowSystem};

verus! {

/// Runs the whole demonstration against the given platform answers:
/// registers the window class, creates the demonstration window, and —
/// through the creation event the platform delivers during the creation
/// call — the full context bootstrap sequence.
pub fn do_it(responses: PlatformResponses) -> (r: Result<CreatedWindow, StartupError>)
    ensures
        match r {
            Ok(w) => {
                &&& responses.class_atom != 0
                &&& responses.window_handle != 0
                &&& w.handle == responses.window_handle
                &&& window_request_matches(
                    w.request,
                    responses.class_atom,
                    "owo, what's this?"@,
                    800,
                    608,
                )
                &&& w.report == bootstrap_spec(responses.bootstrap)
            },
            Err(e) => {
                ||| (e == StartupError::RegistrationFailed && responses.class_atom == 0)
                ||| (e == StartupError::WindowCreationFailed && responses.class_atom != 0
                    && responses.window_handle == 0)
            },
        },
{
    let mut system = WindowSystem::new();
    match system.ensure_registered(responses.class_atom) {
        Ok(_) => {},
        Err(e) => {
            return Err(e);
        },
    }
    let title = "owo, what's this?";
    proof {
        reveal_strlit("owo, what's this?");
        crate::encoding::lemma_utf16_len_basic_plane(title@);
        assert(utf16_of(title@).len() < TITLE_CAPACITY);
    }
    system.create_window(title, 800, 608, responses)
}

} // verus!

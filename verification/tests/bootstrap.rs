use minigl::bootstrap::{classify_event, run_bootstrap, EventDisposition, WM_CREATE};
use minigl::do_it;
use minigl::errors::{BootstrapFault, StartupError};
use minigl::pixel::{
    pixel_format_template, PFD_DOUBLEBUFFER, PFD_DRAW_TO_WINDOW, PFD_MAIN_PLANE,
    PFD_SUPPORT_OPENGL, PFD_TYPE_RGBA,
};
use minigl::platform::{BootstrapResponses, PlatformResponses};
use minigl::registrar::WindowSystem;
use minigl::resolver::{classify_primary, finish_fallback, resolve, PrimaryOutcome, ProcQuery};

fn working_bootstrap() -> BootstrapResponses {
    BootstrapResponses {
        surface: 0x2000,
        format: 3,
        apply_ok: true,
        context: 0x3000,
        make_current_ok: true,
        version: String::from("4.6.0 Core Profile"),
        module: 0x4000,
        core_query: ProcQuery { primary: 0x5000, symbol: 0 },
        ext_query: ProcQuery { primary: 2, symbol: 0x6000 },
    }
}

#[test]
fn it_works() {
    let responses = PlatformResponses {
        class_atom: 7,
        window_handle: 0x1000,
        bootstrap: working_bootstrap(),
    };
    do_it(responses).unwrap();
}

#[test]
fn demo_end_to_end() {
    let mut system = WindowSystem::new();
    system.ensure_registered(7).unwrap();
    let responses = PlatformResponses {
        class_atom: 7,
        window_handle: 0x1000,
        bootstrap: working_bootstrap(),
    };
    let window = system.create_window("Demo", 800, 608, responses).unwrap();
    // the creation event fired during the creation call
    let report = window.report;
    assert_eq!(report.outcome, Ok(()));
    // the version query returned a non-empty text
    let version = report.version.unwrap();
    assert!(!version.is_empty());
    assert_eq!(version, "4.6.0 Core Profile");
    // both lookups resolved deterministically
    let core = report.core.unwrap();
    assert!(!core.fallback_used);
    assert_eq!(core.address, Some(0x5000));
    let ext = report.ext.unwrap();
    assert!(ext.fallback_used);
    assert_eq!(ext.address, Some(0x6000));
    // the context was torn down and shutdown requested exactly once
    assert!(report.context_deleted);
    assert!(report.quit_signaled);
}

#[test]
fn each_reserved_sentinel_sends_lookup_to_fallback() {
    for sentinel in [0usize, 1, 2, 3, usize::MAX] {
        assert_eq!(classify_primary(sentinel), PrimaryOutcome::NeedsFallback);
        let resolved = resolve(&ProcQuery { primary: sentinel, symbol: 0x6000 }, 0x4000);
        assert!(resolved.fallback_used);
        assert_eq!(resolved.address, Some(0x6000));
    }
}

#[test]
fn genuine_primary_address_skips_fallback() {
    for address in [4usize, 0x10, 0x5000, usize::MAX - 1] {
        assert_eq!(classify_primary(address), PrimaryOutcome::Hit(address));
        let resolved = resolve(&ProcQuery { primary: address, symbol: 0x6000 }, 0x4000);
        assert!(!resolved.fallback_used);
        assert_eq!(resolved.address, Some(address));
    }
}

#[test]
fn fallback_miss_is_a_normal_none() {
    assert_eq!(finish_fallback(0), None);
    assert_eq!(finish_fallback(0x6000), Some(0x6000));
    let resolved = resolve(&ProcQuery { primary: 1, symbol: 0 }, 0x4000);
    assert!(resolved.fallback_used);
    assert_eq!(resolved.address, None);
}

#[test]
fn unloadable_module_makes_fallback_miss() {
    let resolved = resolve(&ProcQuery { primary: 1, symbol: 0x6000 }, 0);
    assert!(resolved.fallback_used);
    assert_eq!(resolved.address, None);
}

#[test]
fn cleanup_runs_after_activation_failure() {
    let mut responses = working_bootstrap();
    responses.make_current_ok = false;
    let report = run_bootstrap(responses);
    assert_eq!(report.outcome, Err(BootstrapFault::ContextActivationFailed));
    assert_eq!(report.context, Some(0x3000));
    assert!(report.context_deleted);
    assert!(report.quit_signaled);
    assert_eq!(report.version, None);
}

#[test]
fn cleanup_runs_after_resolution_misses() {
    let mut responses = working_bootstrap();
    responses.core_query = ProcQuery { primary: 0, symbol: 0 };
    responses.ext_query = ProcQuery { primary: 3, symbol: 0 };
    let report = run_bootstrap(responses);
    assert_eq!(report.outcome, Ok(()));
    assert_eq!(report.core.unwrap().address, None);
    assert_eq!(report.ext.unwrap().address, None);
    assert!(report.context_deleted);
}

#[test]
fn cleanup_runs_on_success() {
    let report = run_bootstrap(working_bootstrap());
    assert_eq!(report.outcome, Ok(()));
    assert!(report.context_deleted);
}

#[test]
fn no_cleanup_when_context_creation_failed() {
    let mut responses = working_bootstrap();
    responses.context = 0;
    let report = run_bootstrap(responses);
    assert_eq!(report.outcome, Err(BootstrapFault::ContextCreationFailed));
    assert_eq!(report.context, None);
    assert!(!report.context_deleted);
    assert!(report.quit_signaled);
}

#[test]
fn surface_failure_is_reported_first() {
    let mut responses = working_bootstrap();
    responses.surface = 0;
    let report = run_bootstrap(responses);
    assert_eq!(report.outcome, Err(BootstrapFault::SurfaceAcquisitionFailed));
    assert_eq!(report.surface, None);
    assert!(!report.context_deleted);
    assert!(report.quit_signaled);
}

#[test]
fn missing_pixel_format_is_reported() {
    let mut responses = working_bootstrap();
    responses.format = 0;
    let report = run_bootstrap(responses);
    assert_eq!(report.outcome, Err(BootstrapFault::NoMatchingPixelFormat));
    assert_eq!(report.format, None);
    assert!(!report.context_deleted);
}

#[test]
fn format_apply_failure_is_reported() {
    let mut responses = working_bootstrap();
    responses.apply_ok = false;
    let report = run_bootstrap(responses);
    assert_eq!(report.outcome, Err(BootstrapFault::PixelFormatApplyFailed));
    assert!(report.format_applied == false);
    assert!(!report.context_deleted);
    assert!(report.quit_signaled);
}

#[test]
fn only_the_creation_event_runs_the_bootstrap() {
    assert_eq!(classify_event(WM_CREATE), EventDisposition::RunBootstrap);
    for msg in [0u32, 2, 15, 0x0112] {
        assert_eq!(classify_event(msg), EventDisposition::ForwardToDefault);
    }
}

#[test]
fn pixel_format_template_is_the_fixed_request() {
    let template = pixel_format_template();
    assert_eq!(template.size, 40);
    assert_eq!(template.version, 1);
    assert_eq!(
        template.flags,
        PFD_DRAW_TO_WINDOW | PFD_SUPPORT_OPENGL | PFD_DOUBLEBUFFER
    );
    assert_eq!(template.pixel_type, PFD_TYPE_RGBA);
    assert_eq!(template.color_bits, 32);
    assert_eq!(template.depth_bits, 24);
    assert_eq!(template.stencil_bits, 8);
    assert_eq!(template.layer_type, PFD_MAIN_PLANE);
    assert_eq!(template.red_bits, 0);
    assert_eq!(template.alpha_bits, 0);
    assert_eq!(template.accum_bits, 0);
    assert_eq!(template.aux_buffers, 0);
}

#[test]
fn failed_registration_stops_the_demonstration() {
    let responses = PlatformResponses {
        class_atom: 0,
        window_handle: 0x1000,
        bootstrap: working_bootstrap(),
    };
    assert!(matches!(do_it(responses), Err(StartupError::RegistrationFailed)));
}

#[test]
fn failed_window_creation_stops_the_demonstration() {
    let responses = PlatformResponses {
        class_atom: 7,
        window_handle: 0,
        bootstrap: working_bootstrap(),
    };
    assert!(matches!(do_it(responses), Err(StartupError::WindowCreationFailed)));
}

use minigl::errors::StartupError;
use minigl::platform::{BootstrapResponses, PlatformResponses};
use minigl::registrar::{
    class_descriptor, clamp_dimension, WindowSystem, COLOR_BACKGROUND, CS_OWNDC, IDC_ARROW,
    MAX_DIMENSION, WINDOW_STYLE, WS_EX_LEFT,
};
use minigl::resolver::ProcQuery;

fn working_platform() -> PlatformResponses {
    PlatformResponses {
        class_atom: 7,
        window_handle: 0x1000,
        bootstrap: BootstrapResponses {
            surface: 0x2000,
            format: 3,
            apply_ok: true,
            context: 0x3000,
            make_current_ok: true,
            version: String::from("4.6.0"),
            module: 0x4000,
            core_query: ProcQuery { primary: 0x5000, symbol: 0 },
            ext_query: ProcQuery { primary: 2, symbol: 0x6000 },
        },
    }
}

#[test]
fn registration_happens_exactly_once() {
    let mut system = WindowSystem::new();
    let first = system.ensure_registered(42);
    let second = system.ensure_registered(99);
    let third = system.ensure_registered(0);
    assert_eq!(first, Ok(42));
    assert_eq!(second, Ok(42));
    assert_eq!(third, Ok(42));
    assert_eq!(system.registration_calls, 1);
    assert_eq!(system.class, Some(42));
}

#[test]
fn rejected_registration_is_a_fatal_fault() {
    let mut system = WindowSystem::new();
    assert_eq!(system.ensure_registered(0), Err(StartupError::RegistrationFailed));
    assert_eq!(system.class, None);
    assert_eq!(system.registration_calls, 1);
    // a later attempt may still register
    assert_eq!(system.ensure_registered(5), Ok(5));
    assert_eq!(system.registration_calls, 2);
}

#[test]
fn class_descriptor_is_fixed() {
    let desc = class_descriptor();
    assert_eq!(desc.style, CS_OWNDC);
    assert_eq!(desc.cursor, IDC_ARROW);
    assert_eq!(desc.background_color_index, COLOR_BACKGROUND);
    assert!(desc.uses_base_image);
    assert!(desc.has_dispatch_callback);
    assert_eq!(desc.extra_class_bytes, 0);
    assert_eq!(desc.extra_window_bytes, 0);
    assert!(!desc.has_icon);
    assert!(!desc.has_menu_name);
    assert_eq!(desc.class_name, vec![77, 105, 110, 105, 71, 76, 0]);
}

#[test]
fn dimensions_above_ceiling_are_clamped_not_rejected() {
    let mut system = WindowSystem::new();
    system.ensure_registered(7).unwrap();
    let window = system
        .create_window("big", 0xFFFFFFFF, 0xFFFFFFFF, working_platform())
        .unwrap();
    assert_eq!(window.request.width, i32::MAX);
    assert_eq!(window.request.height, i32::MAX);
    assert_eq!(window.handle, 0x1000);
}

#[test]
fn ordinary_dimensions_pass_unchanged() {
    assert_eq!(clamp_dimension(800), 800);
    assert_eq!(clamp_dimension(608), 608);
    assert_eq!(clamp_dimension(MAX_DIMENSION), i32::MAX);
    assert_eq!(clamp_dimension(MAX_DIMENSION + 1), i32::MAX);
}

#[test]
fn window_request_carries_the_fixed_shape() {
    let mut system = WindowSystem::new();
    system.ensure_registered(7).unwrap();
    let request = system.build_window_request("Demo", 800, 608).unwrap();
    assert_eq!(request.ex_style, WS_EX_LEFT);
    assert_eq!(request.class_atom, 7);
    assert_eq!(request.style, WINDOW_STYLE);
    assert!(request.use_default_position);
    assert_eq!(request.width, 800);
    assert_eq!(request.height, 608);
    assert!(!request.has_parent);
    assert!(!request.has_menu);
    assert!(request.uses_base_image);
    assert!(!request.has_payload);
    assert_eq!(&request.title_units[0..5], &[68, 101, 109, 111, 0]);
}

#[test]
fn too_long_title_stops_window_creation() {
    let mut system = WindowSystem::new();
    system.ensure_registered(7).unwrap();
    let title = "z".repeat(4000);
    let result = system.create_window(&title, 800, 608, working_platform());
    assert!(matches!(result, Err(StartupError::TitleTooLong)));
}

#[test]
fn bootstrap_fault_leaves_the_window_with_the_caller() {
    let mut system = WindowSystem::new();
    system.ensure_registered(7).unwrap();
    let mut platform = working_platform();
    platform.bootstrap.surface = 0;
    // the window is created; the bootstrap fault is reported, not raised
    let window = system.create_window("Demo", 800, 608, platform).unwrap();
    assert_eq!(window.handle, 0x1000);
    assert!(window.report.outcome.is_err());
    assert!(window.report.quit_signaled);
}

#[test]
fn null_window_handle_is_a_fatal_fault() {
    let mut system = WindowSystem::new();
    system.ensure_registered(7).unwrap();
    let mut platform = working_platform();
    platform.window_handle = 0;
    let result = system.create_window("Demo", 800, 608, platform);
    assert!(matches!(result, Err(StartupError::WindowCreationFailed)));
}

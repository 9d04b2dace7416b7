use minigl::errors::BootstrapFault;
use minigl::machine::{
    BootstrapAction, BootstrapEvent, BootstrapMachine, Phase, ProcName, GL_VERSION,
};

#[test]
fn machine_walks_the_success_protocol() {
    let (mut machine, action) = BootstrapMachine::start();
    assert_eq!(action, BootstrapAction::AcquireSurface);
    assert_eq!(machine.phase, Phase::AwaitSurface);

    let action = machine.on_event(BootstrapEvent::Surface(0x2000));
    assert_eq!(action, BootstrapAction::ChooseFormat { surface: 0x2000 });
    let action = machine.on_event(BootstrapEvent::Format(3));
    assert_eq!(action, BootstrapAction::ApplyFormat { surface: 0x2000, format: 3 });
    let action = machine.on_event(BootstrapEvent::Applied(true));
    assert_eq!(action, BootstrapAction::CreateContext { surface: 0x2000 });
    let action = machine.on_event(BootstrapEvent::Context(0x3000));
    assert_eq!(
        action,
        BootstrapAction::MakeCurrent { surface: 0x2000, context: 0x3000 }
    );
    let action = machine.on_event(BootstrapEvent::Activated(true));
    assert_eq!(action, BootstrapAction::QueryVersion { query: GL_VERSION });
    let action = machine.on_event(BootstrapEvent::Version(String::from("4.6.0")));
    assert_eq!(action, BootstrapAction::QueryPrimary { name: ProcName::GlGetString });
    // primary hit on the core entry point: no fallback, straight to the next name
    let action = machine.on_event(BootstrapEvent::PrimaryAddress(0x5000));
    assert_eq!(
        action,
        BootstrapAction::QueryPrimary { name: ProcName::WglCreateContextAttribsArb }
    );
    // primary sentinel on the extension: the machine asks for the fallback
    let action = machine.on_event(BootstrapEvent::PrimaryAddress(2));
    assert_eq!(
        action,
        BootstrapAction::QueryFallback { name: ProcName::WglCreateContextAttribsArb }
    );
    let action = machine.on_event(BootstrapEvent::SymbolAddress(0x6000));
    assert_eq!(action, BootstrapAction::DeleteContext { context: 0x3000 });
    let action = machine.on_event(BootstrapEvent::Deleted);
    assert_eq!(action, BootstrapAction::SignalQuit);

    assert_eq!(machine.phase, Phase::Done);
    assert_eq!(machine.fault, None);
    assert_eq!(machine.version.as_deref(), Some("4.6.0"));
    let core = machine.core.unwrap();
    assert!(!core.fallback_used);
    assert_eq!(core.address, Some(0x5000));
    let ext = machine.ext.unwrap();
    assert!(ext.fallback_used);
    assert_eq!(ext.address, Some(0x6000));
    assert!(machine.context_deleted);
    assert!(machine.quit_signaled);
}

#[test]
fn machine_deletes_context_after_activation_failure() {
    let (mut machine, _) = BootstrapMachine::start();
    machine.on_event(BootstrapEvent::Surface(0x2000));
    machine.on_event(BootstrapEvent::Format(3));
    machine.on_event(BootstrapEvent::Applied(true));
    machine.on_event(BootstrapEvent::Context(0x3000));
    let action = machine.on_event(BootstrapEvent::Activated(false));
    assert_eq!(action, BootstrapAction::DeleteContext { context: 0x3000 });
    let action = machine.on_event(BootstrapEvent::Deleted);
    assert_eq!(action, BootstrapAction::SignalQuit);
    assert_eq!(machine.fault, Some(BootstrapFault::ContextActivationFailed));
    assert!(machine.context_deleted);
    assert!(machine.quit_signaled);
}

#[test]
fn machine_skips_cleanup_when_no_context_exists() {
    let (mut machine, _) = BootstrapMachine::start();
    machine.on_event(BootstrapEvent::Surface(0x2000));
    machine.on_event(BootstrapEvent::Format(3));
    machine.on_event(BootstrapEvent::Applied(true));
    let action = machine.on_event(BootstrapEvent::Context(0));
    assert_eq!(action, BootstrapAction::SignalQuit);
    assert_eq!(machine.phase, Phase::Done);
    assert_eq!(machine.fault, Some(BootstrapFault::ContextCreationFailed));
    assert!(!machine.context_deleted);
    assert!(machine.quit_signaled);
}

#[test]
fn machine_quits_at_once_on_surface_failure() {
    let (mut machine, _) = BootstrapMachine::start();
    let action = machine.on_event(BootstrapEvent::Surface(0));
    assert_eq!(action, BootstrapAction::SignalQuit);
    assert_eq!(machine.fault, Some(BootstrapFault::SurfaceAcquisitionFailed));
    assert!(!machine.context_deleted);
    assert!(machine.quit_signaled);
}

#[test]
fn resolved_entry_points_carry_their_names() {
    assert_eq!(ProcName::GlGetString.symbol_name(), "glGetString");
    assert_eq!(
        ProcName::WglCreateContextAttribsArb.symbol_name(),
        "wglCreateContextAttribsARB"
    );
}

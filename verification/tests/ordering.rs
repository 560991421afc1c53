use surface_lifecycle::lifecycle::{LifecycleEvent, SurfaceAction, SurfaceController};
use surface_lifecycle::ordering::{BackendCall, ResourceLedger};

#[test]
fn fresh_ledger_has_nothing_alive() {
    let l = ResourceLedger::new();
    assert!(!l.instance_live);
    assert!(!l.messenger_live);
    assert!(!l.surface_live);
}

#[test]
fn full_session_in_order_is_admitted() {
    let mut l = ResourceLedger::new();
    for call in [
        BackendCall::CreateInstance,
        BackendCall::CreateMessenger,
        BackendCall::CreateSurface,
        BackendCall::DestroySurface,
        BackendCall::DestroyMessenger,
        BackendCall::DestroyInstance,
    ] {
        assert!(l.record(call), "call refused: {call:?}");
    }
    assert!(!l.instance_live);
    assert!(!l.messenger_live);
    assert!(!l.surface_live);
}

#[test]
fn messenger_before_instance_is_refused() {
    let mut l = ResourceLedger::new();
    assert!(!l.record(BackendCall::CreateMessenger));
    assert!(!l.messenger_live);
}

#[test]
fn surface_before_instance_is_refused() {
    let mut l = ResourceLedger::new();
    assert!(!l.record(BackendCall::CreateSurface));
    assert!(!l.surface_live);
}

#[test]
fn double_create_instance_is_refused() {
    let mut l = ResourceLedger::new();
    assert!(l.record(BackendCall::CreateInstance));
    assert!(!l.record(BackendCall::CreateInstance));
}

#[test]
fn destroy_instance_with_live_messenger_is_refused() {
    let mut l = ResourceLedger::new();
    assert!(l.record(BackendCall::CreateInstance));
    assert!(l.record(BackendCall::CreateMessenger));
    assert!(!l.record(BackendCall::DestroyInstance));
    assert!(l.instance_live);
}

#[test]
fn destroy_messenger_with_live_surface_is_refused() {
    let mut l = ResourceLedger::new();
    assert!(l.record(BackendCall::CreateInstance));
    assert!(l.record(BackendCall::CreateMessenger));
    assert!(l.record(BackendCall::CreateSurface));
    assert!(!l.record(BackendCall::DestroyMessenger));
    assert!(l.record(BackendCall::DestroySurface));
    assert!(l.record(BackendCall::DestroyMessenger));
    assert!(l.record(BackendCall::DestroyInstance));
}

#[test]
fn surface_can_be_rebuilt_across_suspend_resume() {
    let mut l = ResourceLedger::new();
    assert!(l.record(BackendCall::CreateInstance));
    assert!(l.record(BackendCall::CreateSurface));
    assert!(l.record(BackendCall::DestroySurface));
    assert!(l.record(BackendCall::CreateSurface));
    assert!(!l.record(BackendCall::CreateSurface));
    assert!(l.record(BackendCall::DestroySurface));
    assert!(l.record(BackendCall::DestroyInstance));
}

#[test]
fn controller_driven_session_is_always_admitted() {
    let events = [
        LifecycleEvent::Resumed,
        LifecycleEvent::RedrawRequested,
        LifecycleEvent::Suspended,
        LifecycleEvent::Resumed,
        LifecycleEvent::CloseRequested,
        LifecycleEvent::LoopExiting,
    ];
    let mut ledger = ResourceLedger::new();
    assert!(ledger.record(BackendCall::CreateInstance));
    assert!(ledger.record(BackendCall::CreateMessenger));
    let mut controller = SurfaceController::new();
    for event in events {
        match controller.step(event) {
            Ok(SurfaceAction::CreateSurface) => {
                assert!(ledger.record(BackendCall::CreateSurface));
            }
            Ok(SurfaceAction::DestroySurface) => {
                assert!(ledger.record(BackendCall::DestroySurface));
            }
            Ok(SurfaceAction::RequestExit) | Ok(SurfaceAction::NoOp) => {}
            Err(violation) => panic!("unexpected contract violation: {violation:?}"),
        }
    }
    assert!(ledger.record(BackendCall::DestroyMessenger));
    assert!(ledger.record(BackendCall::DestroyInstance));
}

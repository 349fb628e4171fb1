use kv_storage::register::{register_start, register_step, RegisterAction, RegisterEvent};

#[test]
fn register_first_thread_registers_once() {
    let a = register_start();
    assert!(matches!(a, RegisterAction::LoadDone));
    let a = register_step(a, RegisterEvent::Flag(false));
    assert!(matches!(a, RegisterAction::ClaimRunning));
    let a = register_step(a, RegisterEvent::Flag(true));
    assert!(matches!(a, RegisterAction::RecheckDone));
    let a = register_step(a, RegisterEvent::Flag(false));
    assert!(matches!(a, RegisterAction::Register));
    let a = register_step(a, RegisterEvent::Registered(Ok(())));
    assert!(matches!(a, RegisterAction::MarkDoneAndRelease));
    let a = register_step(a, RegisterEvent::Released);
    assert!(matches!(a, RegisterAction::LoadDone));
    let a = register_step(a, RegisterEvent::Flag(true));
    assert!(matches!(a, RegisterAction::Finish));
}

#[test]
fn register_already_done() {
    let a = register_step(register_start(), RegisterEvent::Flag(true));
    assert!(matches!(a, RegisterAction::Finish));
}

#[test]
fn register_contended_claim_spins() {
    let a = register_step(RegisterAction::ClaimRunning, RegisterEvent::Flag(false));
    assert!(matches!(a, RegisterAction::SpinThenLoadDone));
    let a = register_step(a, RegisterEvent::Flag(false));
    assert!(matches!(a, RegisterAction::ClaimRunning));
}

#[test]
fn register_done_while_claiming_releases() {
    let a = register_step(RegisterAction::RecheckDone, RegisterEvent::Flag(true));
    assert!(matches!(a, RegisterAction::ReleaseAndReturn(Ok(()))));
}

#[test]
fn register_failure_releases_and_returns_error() {
    let a = register_step(
        RegisterAction::Register,
        RegisterEvent::Registered(Err(rusqlite::Error::InvalidQuery)),
    );
    assert!(matches!(a, RegisterAction::ReleaseAndReturn(Err(rusqlite::Error::InvalidQuery))));
}

//! Registering SQLite's checksum VFS once per process.
//!
//! Threads share two flags: `RUNNING`, which one thread at a time holds while
//! it registers, and `DONE`, set once registration succeeded. The thread that
//! runs the protocol performs each action on the flags (or the registration)
//! and hands what it saw back to `register_step`, which decides the next
//! action.
use vstd::prelude::*;
use rusqlite::Error as SqliteError;

verus! {

/// What the registering thread does next.
pub enum RegisterAction {
    /// Read `DONE`.
    LoadDone,
    /// Try to claim `RUNNING` (compare-exchange from false to true).
    ClaimRunning,
    /// Another thread holds the claim: spin a little, then read `DONE`.
    SpinThenLoadDone,
    /// Holding the claim, read `DONE` again.
    RecheckDone,
    /// Holding the claim, register the checksum VFS.
    Register,
    /// Set `DONE`, then release `RUNNING`.
    MarkDoneAndRelease,
    /// Release `RUNNING`, then return this result.
    ReleaseAndReturn(Result<(), SqliteError>),
    /// Return success: registration is done.
    Finish,
}

/// What the thread saw when it performed an action.
pub enum RegisterEvent {
    /// The value read from `DONE`, or whether the claim on `RUNNING` succeeded.
    Flag(bool),
    /// The result of registering the checksum VFS.
    Registered(Result<(), SqliteError>),
    /// `DONE` was set and `RUNNING` released.
    Released,
}

/// Whether `event` is what performing `action` can report. The two final
/// actions report nothing.
pub open spec fn event_fits(action: RegisterAction, event: RegisterEvent) -> bool {
    match action {
        RegisterAction::LoadDone | RegisterAction::ClaimRunning
            | RegisterAction::SpinThenLoadDone | RegisterAction::RecheckDone => event is Flag,
        RegisterAction::Register => event is Registered,
        RegisterAction::MarkDoneAndRelease => event is Released,
        RegisterAction::ReleaseAndReturn(_) | RegisterAction::Finish => false,
    }
}

/// The next action, after `action` was performed and reported `event`.
pub open spec fn register_step_result(action: RegisterAction, event: RegisterEvent) -> RegisterAction {
    match (action, event) {
        (RegisterAction::LoadDone, RegisterEvent::Flag(done))
        | (RegisterAction::SpinThenLoadDone, RegisterEvent::Flag(done)) =>
            if done { RegisterAction::Finish } else { RegisterAction::ClaimRunning },
        (RegisterAction::ClaimRunning, RegisterEvent::Flag(claimed)) =>
            if claimed { RegisterAction::RecheckDone } else { RegisterAction::SpinThenLoadDone },
        (RegisterAction::RecheckDone, RegisterEvent::Flag(done)) =>
            if done { RegisterAction::ReleaseAndReturn(Ok(())) } else { RegisterAction::Register },
        (RegisterAction::Register, RegisterEvent::Registered(result)) => match result {
            Ok(()) => RegisterAction::MarkDoneAndRelease,
            Err(e) => RegisterAction::ReleaseAndReturn(Err(e)),
        },
        (RegisterAction::MarkDoneAndRelease, RegisterEvent::Released) => RegisterAction::LoadDone,
        (a, _) => a,
    }
}

/// The first action: read `DONE`.
pub fn register_start() -> (a: RegisterAction)
    ensures
        a is LoadDone,
{
    RegisterAction::LoadDone
}

/// Decides the next action of the registration protocol.
pub fn register_step(action: RegisterAction, event: RegisterEvent) -> (next: RegisterAction)
    requires
        event_fits(action, event),
    ensures
        next == register_step_result(action, event),
{
    match action {
        RegisterAction::LoadDone | RegisterAction::SpinThenLoadDone => match event {
            RegisterEvent::Flag(true) => RegisterAction::Finish,
            _ => RegisterAction::ClaimRunning,
        },
        RegisterAction::ClaimRunning => match event {
            RegisterEvent::Flag(true) => RegisterAction::RecheckDone,
            _ => RegisterAction::SpinThenLoadDone,
        },
        RegisterAction::RecheckDone => match event {
            RegisterEvent::Flag(true) => RegisterAction::ReleaseAndReturn(Ok(())),
            _ => RegisterAction::Register,
        },
        RegisterAction::Register => match event {
            RegisterEvent::Registered(Err(e)) => RegisterAction::ReleaseAndReturn(Err(e)),
            _ => RegisterAction::MarkDoneAndRelease,
        },
        RegisterAction::MarkDoneAndRelease => RegisterAction::LoadDone,
        RegisterAction::ReleaseAndReturn(r) => RegisterAction::ReleaseAndReturn(r),
        RegisterAction::Finish => RegisterAction::Finish,
    }
}

/// Whether the thread holds the claim on `RUNNING` when it performs `action`.
pub open spec fn performed_holding_claim(action: RegisterAction) -> bool {
    ||| action is RecheckDone
    ||| action is Register
    ||| action is MarkDoneAndRelease
    ||| action is ReleaseAndReturn
}

/// The claim discipline: the thread takes the claim only by a successful
/// compare-exchange; while it holds the claim every next action holds it too
/// or releases it (only `MarkDoneAndRelease` releases it and goes on);
/// registration runs only under the claim, after `DONE` was seen unset while
/// holding it; success is returned without the claim only after `DONE` was
/// seen set; a failed registration is returned, after releasing, as it was.
pub proof fn law_register_claim_discipline(action: RegisterAction, event: RegisterEvent)
    requires
        event_fits(action, event),
    ensures
        ({
            let next = register_step_result(action, event);
            &&& (!performed_holding_claim(action) && performed_holding_claim(next)) ==>
                    action is ClaimRunning && event == RegisterEvent::Flag(true)
            &&& (performed_holding_claim(action) && !(action is MarkDoneAndRelease)) ==>
                    performed_holding_claim(next)
            &&& next is Register ==> action is RecheckDone && event == RegisterEvent::Flag(false)
            &&& next is Finish ==> event == RegisterEvent::Flag(true)
                    && (action is LoadDone || action is SpinThenLoadDone)
            &&& next matches RegisterAction::ReleaseAndReturn(Err(e)) ==>
                    action is Register && event == RegisterEvent::Registered(Err(e))
        }),
{
}

} // verus!

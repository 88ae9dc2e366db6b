//! The error taxonomy: one enum per component, each with a short textual
//! description in place of `Display`.

use vstd::prelude::*;

verus! {

/// Failure of a clipboard operation.
#[derive(Clone, Copy, Debug, PartialEq, Eq, Structural)]
pub enum ClipboardError {
    /// The clipboard could not be opened, e.g. it is held by another process.
    AccessDenied,
    /// Backing memory for the clipboard payload could not be obtained.
    AllocationFailed,
}

/// Failure of synthetic input injection.
#[derive(Clone, Copy, Debug, PartialEq, Eq, Structural)]
pub enum InputError {
    /// The platform rejected the synthesized key sequence, e.g. the
    /// foreground window is elevated or injection is blocked by policy.
    InjectionRejected,
}

/// Failure of the selection-extraction protocol.
#[derive(Clone, Copy, Debug, PartialEq, Eq, Structural)]
pub enum ExtractionError {
    /// The simulated copy command could not be injected.
    SimulationFailed,
    /// The clipboard could not be prepared for the interception.
    ClipboardUnavailable,
}

/// Failure of the monitor lifecycle controller. A start while already
/// running and a stop while already stopped are silent successes, so the
/// only error is a refused hook registration.
#[derive(Clone, Copy, Debug, PartialEq, Eq, Structural)]
pub enum MonitorError {
    /// The platform refused to register the global input hook.
    HookInstallFailed,
}

impl ClipboardError {
    /// A short description of the failure.
    pub fn message(&self) -> (s: &'static str)
        ensures
            *self == ClipboardError::AccessDenied ==> s@ == "clipboard access denied"@,
            *self == ClipboardError::AllocationFailed ==> s@ == "clipboard allocation failed"@,
    {
        match self {
            ClipboardError::AccessDenied => "clipboard access denied",
            ClipboardError::AllocationFailed => "clipboard allocation failed",
        }
    }
}

impl InputError {
    /// A short description of the failure.
    pub fn message(&self) -> (s: &'static str)
        ensures
            s@ == "synthetic input injection rejected"@,
    {
        match self {
            InputError::InjectionRejected => "synthetic input injection rejected",
        }
    }
}

impl ExtractionError {
    /// A short description of the failure.
    pub fn message(&self) -> (s: &'static str)
        ensures
            *self == ExtractionError::SimulationFailed ==> s@ == "copy simulation failed"@,
            *self == ExtractionError::ClipboardUnavailable ==> s@ == "clipboard unavailable"@,
    {
        match self {
            ExtractionError::SimulationFailed => "copy simulation failed",
            ExtractionError::ClipboardUnavailable => "clipboard unavailable",
        }
    }
}

impl MonitorError {
    /// A short description of the failure.
    pub fn message(&self) -> (s: &'static str)
        ensures
            s@ == "failed to install input hook"@,
    {
        match self {
            MonitorError::HookInstallFailed => "failed to install input hook",
        }
    }
}

/// An injection failure reported by the copy-command simulator surfaces to
/// callers of the extractor as a simulation failure.
pub fn simulation_error(e: InputError) -> (r: ExtractionError)
    ensures
        r == ExtractionError::SimulationFailed,
{
    match e {
        InputError::InjectionRejected => ExtractionError::SimulationFailed,
    }
}

} // verus!

//! The two ways a command can fail: the probe refused, or the flash loader did.

use vstd::prelude::*;
use vstd::std_specs::convert::FromSpecImpl;

verus! {

/// `probe_rs::Error`, carried through unread: attach failures, unknown
/// targets and memory-transport failures all arrive as this type.
#[verifier::external_type_specification]
#[verifier::external_body]
pub struct ExProbeError(probe_rs::Error);

/// `probe_rs::flashing::FlashError`, carried through unread: what staging
/// or committing flash data reports.
#[verifier::external_type_specification]
#[verifier::external_body]
pub struct ExFlashError(probe_rs::flashing::FlashError);

/// Why a command was aborted. Each variant wraps the failure of the
/// underlying probe library untouched; the library adds none of its own.
#[derive(Debug)]
pub enum CommandError {
    /// Attaching to the probe, resolving the target or reading memory failed.
    ProbeRsError(probe_rs::Error),
    /// Staging or committing the option words failed.
    ProbeRsFlashError(probe_rs::flashing::FlashError),
}

impl From<probe_rs::Error> for CommandError {
    fn from(value: probe_rs::Error) -> (error: Self) {
        CommandError::ProbeRsError(value)
    }
}

impl FromSpecImpl<probe_rs::Error> for CommandError {
    open spec fn obeys_from_spec() -> bool {
        true
    }

    open spec fn from_spec(value: probe_rs::Error) -> Self {
        CommandError::ProbeRsError(value)
    }
}

impl From<probe_rs::flashing::FlashError> for CommandError {
    fn from(value: probe_rs::flashing::FlashError) -> (error: Self) {
        CommandError::ProbeRsFlashError(value)
    }
}

impl FromSpecImpl<probe_rs::flashing::FlashError> for CommandError {
    open spec fn obeys_from_spec() -> bool {
        true
    }

    open spec fn from_spec(value: probe_rs::flashing::FlashError) -> Self {
        CommandError::ProbeRsFlashError(value)
    }
}

} // verus!

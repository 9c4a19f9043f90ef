//! Error codes of the firmware-update collaborator. The update byte
//! stream and flash writing are out of this core's scope; the codes appear
//! on the bus inside error reports and are kept decodable here.

use vstd::prelude::*;

verus! {

/// What went wrong during a firmware update, as reported on the bus.
#[derive(Debug, Copy, Clone, PartialEq, Eq, Structural)]
pub enum UpdateErrorCode {
    Unknown,
    InvalidData,
    Begin,
    Init,
    Write,
    NotStarted,
}

impl UpdateErrorCode {
    /// The wire code of an update error.
    pub open spec fn spec_code(self) -> u8 {
        match self {
            UpdateErrorCode::Unknown => 0,
            UpdateErrorCode::InvalidData => 1,
            UpdateErrorCode::Begin => 2,
            UpdateErrorCode::Init => 3,
            UpdateErrorCode::Write => 4,
            UpdateErrorCode::NotStarted => 5,
        }
    }

    /// The update error a wire byte decodes to; unrecognised bytes decode
    /// to `Unknown`.
    pub open spec fn spec_from_code(code: u8) -> UpdateErrorCode {
        match code {
            1u8 => UpdateErrorCode::InvalidData,
            2u8 => UpdateErrorCode::Begin,
            3u8 => UpdateErrorCode::Init,
            4u8 => UpdateErrorCode::Write,
            5u8 => UpdateErrorCode::NotStarted,
            _ => UpdateErrorCode::Unknown,
        }
    }

    #[verifier::when_used_as_spec(spec_code)]
    pub fn code(self) -> (code: u8)
        ensures
            code == self.spec_code(),
    {
        match self {
            UpdateErrorCode::Unknown => 0,
            UpdateErrorCode::InvalidData => 1,
            UpdateErrorCode::Begin => 2,
            UpdateErrorCode::Init => 3,
            UpdateErrorCode::Write => 4,
            UpdateErrorCode::NotStarted => 5,
        }
    }

    #[verifier::when_used_as_spec(spec_from_code)]
    pub fn from_code(code: u8) -> (r: UpdateErrorCode)
        ensures
            r == Self::spec_from_code(code),
    {
        match code {
            1u8 => UpdateErrorCode::InvalidData,
            2u8 => UpdateErrorCode::Begin,
            3u8 => UpdateErrorCode::Init,
            4u8 => UpdateErrorCode::Write,
            5u8 => UpdateErrorCode::NotStarted,
            _ => UpdateErrorCode::Unknown,
        }
    }
}

} // verus!

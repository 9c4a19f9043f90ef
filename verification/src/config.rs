//! Keys of the persistent configuration store. The store itself — flash
//! access behind a key-value layer — is an external collaborator; the core
//! only names the keys under which collaborators file values.

use vstd::prelude::*;

verus! {

/// A configuration entry's key on the storage medium.
#[derive(Debug, Copy, Clone, PartialEq, Eq, Structural)]
pub enum Key {
    RelaisMode,
    ExtensionMode,
    DeviceId,
    DeviceType,
    CustomString,
    Baudrate,
    HardwareRevision,
}

impl Key {
    /// The byte under which a key's value is stored.
    pub open spec fn spec_code(self) -> u8 {
        match self {
            Key::RelaisMode => 1,
            Key::ExtensionMode => 2,
            Key::DeviceId => 3,
            Key::DeviceType => 4,
            Key::CustomString => 5,
            Key::Baudrate => 6,
            Key::HardwareRevision => 7,
        }
    }

    #[verifier::when_used_as_spec(spec_code)]
    pub fn code(self) -> (code: u8)
        ensures
            code == self.spec_code(),
    {
        match self {
            Key::RelaisMode => 1,
            Key::ExtensionMode => 2,
            Key::DeviceId => 3,
            Key::DeviceType => 4,
            Key::CustomString => 5,
            Key::Baudrate => 6,
            Key::HardwareRevision => 7,
        }
    }
}

} // verus!

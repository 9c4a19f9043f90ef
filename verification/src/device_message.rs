//! Payload of a device-identity assignment: two bytes, the device id and
//! the device type.

use vstd::prelude::*;

verus! {

/// Parser for the device-identity payload.
#[derive(Debug, Copy, Clone)]
pub struct IdTypeMsg {}

impl IdTypeMsg {
    /// Accepts exactly the two-byte payloads and hands back the pair
    /// `(device id, device type)`.
    pub fn parse(data: &[u8]) -> (r: Option<(u8, u8)>)
        ensures
            data@.len() == 2 ==> r == Some((data@[0], data@[1])),
            data@.len() != 2 ==> r is None,
    {
        if data.len() != 2 {
            return None;
        }
        let id = data[0];
        let dtype = data[1];
        Some((id, dtype))
    }
}

} // verus!

//! Wire payload of a relay or rollershutter command: six bytes holding the
//! relay index, a state code and a little-endian duration whose most
//! significant byte position doubles as the output-bank field. The overlap
//! is a deliberate compact encoding — byte five is written as the bank on
//! encode and read back both as the bank and as the duration's top byte on
//! decode — so a true duration is limited to its low 24 bits.

use vstd::prelude::*;

verus! {

/// Commanded logical state of a relay.
#[derive(Debug, Clone, Copy, PartialEq, Eq, Structural)]
pub enum RelaisState {
    Off,
    Up,
    Down,
    On,
}

impl RelaisState {
    /// The wire code of a state.
    pub open spec fn spec_code(self) -> u8 {
        match self {
            RelaisState::Off => 0,
            RelaisState::Up => 1,
            RelaisState::Down => 2,
            RelaisState::On => 3,
        }
    }

    /// The state a wire code decodes to; codes above three are invalid.
    pub open spec fn spec_from_code(code: u8) -> Option<RelaisState> {
        match code {
            0u8 => Some(RelaisState::Off),
            1u8 => Some(RelaisState::Up),
            2u8 => Some(RelaisState::Down),
            3u8 => Some(RelaisState::On),
            _ => None,
        }
    }

    #[verifier::when_used_as_spec(spec_code)]
    pub fn code(self) -> (code: u8)
        ensures
            code == self.spec_code(),
    {
        match self {
            RelaisState::Off => 0,
            RelaisState::Up => 1,
            RelaisState::Down => 2,
            RelaisState::On => 3,
        }
    }

    #[verifier::when_used_as_spec(spec_from_code)]
    pub fn from_code(code: u8) -> (state: Option<RelaisState>)
        ensures
            state == Self::spec_from_code(code),
    {
        match code {
            0u8 => Some(RelaisState::Off),
            1u8 => Some(RelaisState::Up),
            2u8 => Some(RelaisState::Down),
            3u8 => Some(RelaisState::On),
            _ => None,
        }
    }
}

/// Every state code round-trips through its state, and every state through
/// its code.
pub proof fn lemma_state_code_round_trip(state: RelaisState, code: u8)
    ensures
        RelaisState::spec_from_code(state.spec_code()) == Some(state),
        RelaisState::spec_from_code(code) matches Some(s) ==> s.spec_code() == code,
{
}

/// A parsed relay command as it travels from the dispatcher to the
/// scheduling engine.
#[derive(Debug, Clone, Copy, PartialEq, Eq, Structural)]
pub struct RelaisMessage {
    /// Logical relay index, one wire byte.
    pub num: u8,
    /// Commanded state.
    pub state: RelaisState,
    /// Duration in milliseconds before the automatic revert to off; zero
    /// means no revert. Its top byte is shared with `bank` on the wire.
    pub duration_ms: u32,
    /// Output bank the command addresses; written over the duration's top
    /// byte on encode.
    pub bank: u8,
}

/// The duration that comes back out of the wire for a message: the low 24
/// bits of the stored duration under the bank as the top byte.
pub open spec fn spec_wire_duration(duration_ms: u32, bank: u8) -> u32 {
    (duration_ms & 0x00FF_FFFF) | ((bank as u32) << 24)
}

impl RelaisMessage {
    /// The six payload bytes of a message.
    pub open spec fn spec_bytes(self) -> Seq<u8> {
        seq![
            self.num,
            self.state.spec_code(),
            (self.duration_ms & 0xFF) as u8,
            ((self.duration_ms >> 8) & 0xFF) as u8,
            ((self.duration_ms >> 16) & 0xFF) as u8,
            self.bank,
        ]
    }

    /// The message a well-formed payload decodes to.
    pub open spec fn spec_from_bytes(data: Seq<u8>) -> Option<RelaisMessage> {
        if data.len() < 6 {
            None
        } else {
            match RelaisState::spec_from_code(data[1]) {
                None => None,
                Some(state) => Some(RelaisMessage {
                    num: data[0],
                    state,
                    duration_ms: (data[2] as u32)
                        | ((data[3] as u32) << 8)
                        | ((data[4] as u32) << 16)
                        | ((data[5] as u32) << 24),
                    bank: data[5],
                }),
            }
        }
    }

    /// Decodes a payload. Exactly the payloads of at least six bytes whose
    /// state code is valid are accepted; everything else is reported as
    /// malformed and dropped by the caller.
    pub fn from_bytes(data: &[u8]) -> (r: Result<RelaisMessage, ()>)
        ensures
            r matches Ok(msg) ==> Self::spec_from_bytes(data@) == Some(msg),
            r is Err <==> Self::spec_from_bytes(data@) is None,
    {
        if data.len() < 6 {
            return Err(());
        }
        let state = match RelaisState::from_code(data[1]) {
            Some(state) => state,
            None => {
                return Err(());
            },
        };
        let duration_ms: u32 = (data[2] as u32)
            | ((data[3] as u32) << 8)
            | ((data[4] as u32) << 16)
            | ((data[5] as u32) << 24);
        Ok(RelaisMessage { num: data[0], state, duration_ms, bank: data[5] })
    }

    /// Encodes a message into its six payload bytes; the last byte carries
    /// the bank, over whatever the duration's top byte held.
    pub fn to_bytes(&self) -> (bytes: [u8; 6])
        ensures
            bytes@ == self.spec_bytes(),
    {
        let bytes: [u8; 6] = [
            self.num,
            self.state.code(),
            (self.duration_ms & 0xFF) as u8,
            ((self.duration_ms >> 8) & 0xFF) as u8,
            ((self.duration_ms >> 16) & 0xFF) as u8,
            self.bank,
        ];
        proof {
            assert(bytes@ =~= self.spec_bytes());
        }
        bytes
    }
}

/// Command round trip: encoding a message and decoding the bytes gives back
/// the same relay index, state and bank, and a duration equal to the
/// original with its top byte replaced by the bank — for every message.
pub proof fn lemma_command_round_trip(msg: RelaisMessage)
    ensures
        ({
            let back = RelaisMessage::spec_from_bytes(msg.spec_bytes());
            &&& back matches Some(b)
            &&& back.unwrap().num == msg.num
            &&& back.unwrap().state == msg.state
            &&& back.unwrap().bank == msg.bank
            &&& back.unwrap().duration_ms == spec_wire_duration(msg.duration_ms, msg.bank)
        }),
{
    lemma_state_code_round_trip(msg.state, 0);
    let d = msg.duration_ms;
    let b = msg.bank;
    assert((((d & 0xFF) as u8) as u32) | ((((d >> 8) & 0xFF) as u8 as u32) << 8)
        | ((((d >> 16) & 0xFF) as u8 as u32) << 16) | ((b as u32) << 24)
        == (d & 0x00FF_FFFF) | ((b as u32) << 24)) by (bit_vector);
}

/// A duration that already fits in 24 bits and a zero bank survive the
/// round trip unchanged.
pub proof fn lemma_command_round_trip_exact(msg: RelaisMessage)
    requires
        msg.duration_ms <= 0x00FF_FFFF,
        msg.bank == 0,
    ensures
        RelaisMessage::spec_from_bytes(msg.spec_bytes()) == Some(msg),
{
    lemma_command_round_trip(msg);
    let d = msg.duration_ms;
    assert(d <= 0x00FF_FFFF ==> (d & 0x00FF_FFFF) | (0u32 << 24) == d) by (bit_vector);
}

/// An older, shorter relay-command encoding: relay index, an on/off flag,
/// and an optional 24-bit time in milliseconds.
#[derive(Debug, Copy, Clone)]
pub struct RelaisMsg {}

impl RelaisMsg {
    /// Accepts payloads of at least two bytes: the relay index and a flag
    /// that is on for any nonzero code. Five or more bytes also carry a
    /// 24-bit little-endian time; shorter payloads carry none.
    pub fn parse(data: &[u8]) -> (r: Option<(usize, bool, Option<u64>)>)
        ensures
            data@.len() < 2 ==> r is None,
            data@.len() >= 5 ==> r == Some((
                data@[0] as usize,
                data@[1] != 0,
                Some((data@[2] as u64) | ((data@[3] as u64) << 8) | ((data@[4] as u64) << 16)),
            )),
            2 <= data@.len() < 5 ==> r == Some((data@[0] as usize, data@[1] != 0, None::<u64>)),
    {
        if data.len() < 2 {
            return None;
        }
        let number = data[0] as usize;
        let state = data[1] != 0;
        if data.len() >= 5 {
            let time: u64 = (data[2] as u64) | ((data[3] as u64) << 8) | ((data[4] as u64) << 16);
            Some((number, state, Some(time)))
        } else {
            Some((number, state, None))
        }
    }
}

} // verus!

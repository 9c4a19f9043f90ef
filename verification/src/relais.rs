//! Output driver: translates a logical `(relay index, state)` pair into
//! physical bit writes on one of two output banks, according to the
//! configured operating mode. The driver keeps a shadow of each bank's
//! output register; a write request carries the bank index and the full new
//! register value, and only the addressed bit changes — the bank's other
//! bits are preserved from the shadow. The hardware layer performs the
//! actual bus write.

use vstd::prelude::*;
use crate::relais_message::RelaisState;

verus! {

/// Number of logical relay outputs a node owns.
pub const MAX_RELAIS: usize = 16;

/// Bus addresses of the two output banks, indexed by bank number.
pub const BANK0_ADDRESS: u8 = 0x26;

pub const BANK1_ADDRESS: u8 = 0x27;

/// Operating mode, fixed at boot: how logical relay indices and states map
/// to physical outputs.
#[derive(Debug, Clone, Copy, PartialEq, Eq, Structural)]
pub enum RelaisMode {
    /// One logical relay per physical output; `On` energizes it.
    Relais,
    /// Rollershutter pairs where only the drive line is switched; the
    /// direction is asserted externally.
    SoftwareRollershutter,
    /// Rollershutter pairs with a drive line at `2n` and a direction line
    /// at `2n + 1`.
    HardwareRollershutter,
}

/// Where a physical output index lives: `(bank index, bit position)`.
/// Indices with no physical line are unmapped and ignored.
pub open spec fn spec_mapping(num: int) -> Option<(usize, u8)> {
    if num == 0 {
        Some((0usize, 3u8))
    } else if num == 1 {
        Some((0usize, 2u8))
    } else if num == 2 {
        Some((0usize, 1u8))
    } else if num == 3 {
        Some((0usize, 7u8))
    } else if num == 4 {
        Some((0usize, 6u8))
    } else if num == 5 {
        Some((0usize, 5u8))
    } else if num == 6 {
        Some((0usize, 4u8))
    } else if num == 7 {
        Some((1usize, 3u8))
    } else if num == 8 {
        Some((1usize, 2u8))
    } else if num == 9 {
        Some((1usize, 1u8))
    } else if num == 10 {
        Some((1usize, 7u8))
    } else if num == 11 {
        Some((1usize, 6u8))
    } else if 12 <= num < 16 {
        Some((0usize, 0u8))
    } else {
        None
    }
}

/// A bank register with one bit driven high or low.
pub open spec fn spec_bit_set(reg: u8, bit: u8, level: bool) -> u8 {
    if level {
        reg | (1u8 << bit)
    } else {
        reg & !(1u8 << bit)
    }
}

/// One physical output driven to a level: the new pair of bank shadows and
/// the write to perform, if the index maps to a line.
pub open spec fn spec_sethw(bank0: u8, bank1: u8, num: int, state: RelaisState) -> (
    u8,
    u8,
    Option<(usize, u8)>,
) {
    match spec_mapping(num) {
        Some((expander, bit)) => {
            let level = state is On;
            if expander == 0 {
                let reg = spec_bit_set(bank0, bit, level);
                (reg, bank1, Some((0usize, reg)))
            } else {
                let reg = spec_bit_set(bank1, bit, level);
                (bank0, reg, Some((1usize, reg)))
            }
        },
        None => (bank0, bank1, None),
    }
}

/// The writes a single optional request contributes.
pub open spec fn spec_write_seq(w: Option<(usize, u8)>) -> Seq<(usize, u8)> {
    match w {
        Some(p) => seq![p],
        None => Seq::empty(),
    }
}

/// A rollershutter step: the drive line at `2n`, then the direction line at
/// `2n + 1`.
pub open spec fn spec_set_pair(
    bank0: u8,
    bank1: u8,
    num: int,
    drive: RelaisState,
    direction: RelaisState,
) -> (u8, u8, Seq<(usize, u8)>) {
    let (b0, b1, w1) = spec_sethw(bank0, bank1, 2 * num, drive);
    let (c0, c1, w2) = spec_sethw(b0, b1, 2 * num + 1, direction);
    (c0, c1, spec_write_seq(w1) + spec_write_seq(w2))
}

/// The full translation table: what one logical command does to the bank
/// shadows and which writes it requests, per mode.
///
/// - `Relais`: index maps one to one; `On` drives the line high, anything
///   else low.
/// - `SoftwareRollershutter`: `Up` and `Down` both energize the drive line
///   and release the direction line; anything else releases both.
/// - `HardwareRollershutter`: `Up` energizes the drive line only, `Down`
///   energizes drive and direction; anything else releases both.
pub open spec fn spec_set(mode: RelaisMode, bank0: u8, bank1: u8, num: int, state: RelaisState) -> (
    u8,
    u8,
    Seq<(usize, u8)>,
) {
    match mode {
        RelaisMode::Relais => {
            let (b0, b1, w) = spec_sethw(bank0, bank1, num, state);
            (b0, b1, spec_write_seq(w))
        },
        RelaisMode::SoftwareRollershutter => {
            let (drive, direction) = if state is Up || state is Down {
                (RelaisState::On, RelaisState::Off)
            } else {
                (RelaisState::Off, RelaisState::Off)
            };
            spec_set_pair(bank0, bank1, num, drive, direction)
        },
        RelaisMode::HardwareRollershutter => {
            let (drive, direction) = match state {
                RelaisState::Up => (RelaisState::On, RelaisState::Off),
                RelaisState::Down => (RelaisState::On, RelaisState::On),
                _ => (RelaisState::Off, RelaisState::Off),
            };
            spec_set_pair(bank0, bank1, num, drive, direction)
        },
    }
}

/// The output driver's state: the configured mode and the shadow of each
/// bank's output register.
pub struct Relais {
    /// Operating mode, fixed at boot.
    pub mode: RelaisMode,
    /// Shadow of bank 0's output register.
    pub bank0: u8,
    /// Shadow of bank 1's output register.
    pub bank1: u8,
}

impl Relais {
    /// A driver for the given mode; both banks start released, the
    /// hardware's power-up default.
    pub fn new(mode: RelaisMode) -> (r: Relais)
        ensures
            r.mode == mode,
            r.bank0 == 0,
            r.bank1 == 0,
    {
        Relais { mode, bank0: 0, bank1: 0 }
    }

    /// The physical line a single output index addresses.
    fn mapping(num: usize) -> (r: Option<(usize, u8)>)
        ensures
            r == spec_mapping(num as int),
            r matches Some(p) ==> p.0 < 2 && p.1 < 8,
    {
        if num == 0 {
            Some((0usize, 3u8))
        } else if num == 1 {
            Some((0usize, 2u8))
        } else if num == 2 {
            Some((0usize, 1u8))
        } else if num == 3 {
            Some((0usize, 7u8))
        } else if num == 4 {
            Some((0usize, 6u8))
        } else if num == 5 {
            Some((0usize, 5u8))
        } else if num == 6 {
            Some((0usize, 4u8))
        } else if num == 7 {
            Some((1usize, 3u8))
        } else if num == 8 {
            Some((1usize, 2u8))
        } else if num == 9 {
            Some((1usize, 1u8))
        } else if num == 10 {
            Some((1usize, 7u8))
        } else if num == 11 {
            Some((1usize, 6u8))
        } else if num < 16 {
            Some((0usize, 0u8))
        } else {
            None
        }
    }

    /// Drives one physical output: updates the addressed bank's shadow and
    /// reports the write to perform, if the index maps to a line.
    fn sethw(&mut self, num: usize, state: RelaisState) -> (w: Option<(usize, u8)>)
        ensures
            ({
                let (b0, b1, ws) = spec_sethw(old(self).bank0, old(self).bank1, num as int, state);
                &&& final(self).bank0 == b0
                &&& final(self).bank1 == b1
                &&& final(self).mode == old(self).mode
                &&& w == ws
            }),
    {
        match Self::mapping(num) {
            Some((expander, bit)) => {
                let level: bool = matches!(state, RelaisState::On);
                if expander == 0 {
                    let reg: u8 = if level {
                        self.bank0 | (1u8 << bit)
                    } else {
                        self.bank0 & !(1u8 << bit)
                    };
                    self.bank0 = reg;
                    Some((0usize, reg))
                } else {
                    let reg: u8 = if level {
                        self.bank1 | (1u8 << bit)
                    } else {
                        self.bank1 & !(1u8 << bit)
                    };
                    self.bank1 = reg;
                    Some((1usize, reg))
                }
            },
            None => None,
        }
    }

    /// Applies one logical command according to the configured mode and
    /// returns the bank writes to perform, in order. Indices without a
    /// physical line request nothing and change nothing.
    pub fn set(&mut self, num: usize, state: RelaisState) -> (writes: Vec<(usize, u8)>)
        ensures
            ({
                let (b0, b1, ws) = spec_set(
                    old(self).mode,
                    old(self).bank0,
                    old(self).bank1,
                    num as int,
                    state,
                );
                &&& final(self).bank0 == b0
                &&& final(self).bank1 == b1
                &&& final(self).mode == old(self).mode
                &&& writes@ == ws
            }),
    {
        let mut writes: Vec<(usize, u8)> = Vec::new();
        match self.mode {
            RelaisMode::Relais => {
                if let Some(w) = self.sethw(num, state) {
                    writes.push(w);
                }
            },
            RelaisMode::SoftwareRollershutter => {
                let (drive, direction) = if matches!(state, RelaisState::Up) || matches!(
                    state,
                    RelaisState::Down,
                ) {
                    (RelaisState::On, RelaisState::Off)
                } else {
                    (RelaisState::Off, RelaisState::Off)
                };
                self.set_pair(num, drive, direction, &mut writes);
            },
            RelaisMode::HardwareRollershutter => {
                let (drive, direction) = match state {
                    RelaisState::Up => (RelaisState::On, RelaisState::Off),
                    RelaisState::Down => (RelaisState::On, RelaisState::On),
                    _ => (RelaisState::Off, RelaisState::Off),
                };
                self.set_pair(num, drive, direction, &mut writes);
            },
        }
        proof {
            assert(writes@ =~= spec_set(
                old(self).mode,
                old(self).bank0,
                old(self).bank1,
                num as int,
                state,
            ).2);
        }
        writes
    }

    /// Drives a rollershutter pair: the drive line at `2n`, then the
    /// direction line at `2n + 1`. Indices whose pair has no physical line
    /// are ignored.
    fn set_pair(
        &mut self,
        num: usize,
        drive: RelaisState,
        direction: RelaisState,
        writes: &mut Vec<(usize, u8)>,
    )
        ensures
            ({
                let (b0, b1, ws) = spec_set_pair(
                    old(self).bank0,
                    old(self).bank1,
                    num as int,
                    drive,
                    direction,
                );
                &&& final(self).bank0 == b0
                &&& final(self).bank1 == b1
                &&& final(self).mode == old(self).mode
                &&& final(writes)@ == old(writes)@ + ws
            }),
    {
        if num < MAX_RELAIS / 2 {
            if let Some(w) = self.sethw(num * 2, drive) {
                writes.push(w);
            }
            if let Some(w) = self.sethw(num * 2 + 1, direction) {
                writes.push(w);
            }
        }
        proof {
            assert(writes@ =~= old(writes)@ + spec_set_pair(
                old(self).bank0,
                old(self).bank1,
                num as int,
                drive,
                direction,
            ).2);
        }
    }
}


/// Whether a physical output line is energized in a pair of bank shadows.
/// Unmapped indices have no line and are never on.
pub open spec fn spec_line_on(bank0: u8, bank1: u8, out: int) -> bool {
    match spec_mapping(out) {
        Some((expander, bit)) => (if expander == 0 {
            bank0
        } else {
            bank1
        }) & (1u8 << bit) != 0,
        None => false,
    }
}

/// Driving a bit leaves it exactly at the driven level.
proof fn lemma_bit_set_reads_back(reg: u8, bit: u8, level: bool)
    requires
        bit < 8,
    ensures
        (spec_bit_set(reg, bit, level) & (1u8 << bit) != 0) == level,
{
    assert(((if level {
        reg | (1u8 << bit)
    } else {
        reg & !(1u8 << bit)
    }) & (1u8 << bit) != 0) == level) by (bit_vector)
        requires
            bit < 8,
    ;
}

/// Driving one bit leaves every other bit of the register as it was.
proof fn lemma_bit_set_preserves_other(reg: u8, bit: u8, other: u8, level: bool)
    requires
        bit < 8,
        other < 8,
        bit != other,
    ensures
        spec_bit_set(reg, bit, level) & (1u8 << other) == reg & (1u8 << other),
{
    assert((if level {
        reg | (1u8 << bit)
    } else {
        reg & !(1u8 << bit)
    }) & (1u8 << other) == reg & (1u8 << other)) by (bit_vector)
        requires
            bit < 8,
            other < 8,
            bit != other,
    ;
}

/// A rollershutter step leaves the pair's two lines exactly at the driven
/// levels: the drive line at `2n` follows `drive`, the direction line at
/// `2n + 1` follows `direction`. This holds for the relays whose pair maps
/// to two distinct physical lines — indices up to five; from six on the
/// pair collapses onto the shared spare line.
pub proof fn lemma_set_pair_lines(
    bank0: u8,
    bank1: u8,
    num: int,
    drive: RelaisState,
    direction: RelaisState,
)
    requires
        0 <= num < 6,
    ensures
        ({
            let (b0, b1, ws) = spec_set_pair(bank0, bank1, num, drive, direction);
            &&& spec_line_on(b0, b1, 2 * num) == (drive is On)
            &&& spec_line_on(b0, b1, 2 * num + 1) == (direction is On)
        }),
{
    let (e1, bit1) = spec_mapping(2 * num).unwrap();
    let (e2, bit2) = spec_mapping(2 * num + 1).unwrap();
    let base1 = if e1 == 0 { bank0 } else { bank1 };
    let r1 = spec_bit_set(base1, bit1, drive is On);
    lemma_bit_set_reads_back(base1, bit1, drive is On);
    if e1 == e2 {
        let r2 = spec_bit_set(r1, bit2, direction is On);
        lemma_bit_set_reads_back(r1, bit2, direction is On);
        lemma_bit_set_preserves_other(r1, bit2, bit1, direction is On);
    } else {
        let base2 = if e2 == 0 { bank0 } else { bank1 };
        lemma_bit_set_reads_back(base2, bit2, direction is On);
    }
}

/// Mode translation, hardware rollershutter: a command on relay `n` leaves
/// the drive line at `2n` energized exactly for up and down, and the
/// direction line at `2n + 1` energized exactly for down — so down drives
/// both lines of the pair, and the automatic revert to off releases both.
pub proof fn lemma_hardware_rollershutter_lines(bank0: u8, bank1: u8, num: int, state: RelaisState)
    requires
        0 <= num < 6,
    ensures
        ({
            let (b0, b1, ws) = spec_set(
                RelaisMode::HardwareRollershutter,
                bank0,
                bank1,
                num,
                state,
            );
            &&& spec_line_on(b0, b1, 2 * num) == (state is Up || state is Down)
            &&& spec_line_on(b0, b1, 2 * num + 1) == (state is Down)
        }),
{
    match state {
        RelaisState::Up => lemma_set_pair_lines(
            bank0,
            bank1,
            num,
            RelaisState::On,
            RelaisState::Off,
        ),
        RelaisState::Down => lemma_set_pair_lines(
            bank0,
            bank1,
            num,
            RelaisState::On,
            RelaisState::On,
        ),
        _ => lemma_set_pair_lines(bank0, bank1, num, RelaisState::Off, RelaisState::Off),
    }
}

/// Mode translation, software rollershutter: up and down both energize the
/// drive line alone; the direction line stays released in every state.
pub proof fn lemma_software_rollershutter_lines(bank0: u8, bank1: u8, num: int, state: RelaisState)
    requires
        0 <= num < 6,
    ensures
        ({
            let (b0, b1, ws) = spec_set(
                RelaisMode::SoftwareRollershutter,
                bank0,
                bank1,
                num,
                state,
            );
            &&& spec_line_on(b0, b1, 2 * num) == (state is Up || state is Down)
            &&& !spec_line_on(b0, b1, 2 * num + 1)
        }),
{
    if state is Up || state is Down {
        lemma_set_pair_lines(bank0, bank1, num, RelaisState::On, RelaisState::Off);
    } else {
        lemma_set_pair_lines(bank0, bank1, num, RelaisState::Off, RelaisState::Off);
    }
}

/// Mode translation, direct relays: a command leaves the relay's own line
/// energized exactly for on.
pub proof fn lemma_direct_line(bank0: u8, bank1: u8, num: int, state: RelaisState)
    requires
        0 <= num < 16,
    ensures
        ({
            let (b0, b1, ws) = spec_set(RelaisMode::Relais, bank0, bank1, num, state);
            spec_line_on(b0, b1, num) == (state is On)
        }),
{
    let (expander, bit) = spec_mapping(num).unwrap();
    let base = if expander == 0 { bank0 } else { bank1 };
    lemma_bit_set_reads_back(base, bit, state is On);
}

} // verus!

//! The TMS1100's instruction-decode Programmable Logic Array (PLA).
//!
//! Every opcode maps to a set of enabled micro-instructions (a 16-bit
//! mask) and, independently, to at most one hard-wired fixed instruction.

use vstd::prelude::*;

verus! {

/// Micro-instruction CKP: latch the CKI bus onto the adder's P input.
pub const CKP: u16 = 1;
/// Micro-instruction YTP: latch the Y register onto the adder's P input.
pub const YTP: u16 = 2;
/// Micro-instruction MTP: latch RAM at `(X, Y)` onto the adder's P input.
pub const MTP: u16 = 4;
/// Micro-instruction ATN: latch the accumulator onto the adder's N input.
pub const ATN: u16 = 8;
/// Micro-instruction NATN: latch the complemented accumulator onto the
/// adder's N input.
pub const NATN: u16 = 16;
/// Micro-instruction MTN: latch RAM at `(X, Y)` onto the adder's N input.
///
/// The decode table never enables it; the hardware reserves the slot.
pub const MTN: u16 = 32;
/// Micro-instruction 15TN: latch the value `0xf` onto the adder's N input.
pub const FTN: u16 = 64;
/// Micro-instruction CKN: latch the CKI bus onto the adder's N input.
pub const CKN: u16 = 128;
/// Micro-instruction CIN: assert the adder's carry input.
pub const CIN: u16 = 256;
/// Micro-instruction NE: AND the adder's status with `P != N`.
pub const NE: u16 = 512;
/// Micro-instruction C8: AND the adder's status with its carry output.
pub const C8: u16 = 1024;
/// Micro-instruction STO: write the accumulator to RAM.
pub const STO: u16 = 2048;
/// Micro-instruction CKM: write the CKI bus to RAM.
pub const CKM: u16 = 4096;
/// Micro-instruction AUTA: store the adder's output in the accumulator.
pub const AUTA: u16 = 8192;
/// Micro-instruction AUTY: store the adder's output in the Y register.
pub const AUTY: u16 = 16384;
/// Micro-instruction STSL: store the adder's status in the status latch.
pub const STSL: u16 = 32768;

/// The micro-instruction mask that the PLA yields for an opcode.
pub open spec fn micro_of(op: u8) -> u16 {
    if op == 0x00 { MTP | ATN | NE }
    else if op == 0x01 { MTP | NATN | CIN | C8 }
    else if op == 0x02 { YTP | ATN | NE | STSL }
    else if op == 0x03 { MTP | STO | AUTA }
    else if op == 0x04 { YTP | FTN | C8 | AUTY }
    else if op == 0x05 { YTP | CIN | C8 | AUTY }
    else if op == 0x06 { ATN | MTP | C8 | AUTA }
    else if op == 0x07 { MTP | FTN | C8 | AUTA }
    else if op == 0x08 { CKP | AUTA }
    else if op == 0x0e { CKP | NE }
    else if op == 0x20 { ATN | AUTY }
    else if op == 0x21 { MTP | AUTA }
    else if op == 0x22 { MTP | AUTY }
    else if op == 0x23 { YTP | AUTA }
    else if op == 0x24 { STO | YTP | FTN | C8 | AUTY }
    else if op == 0x25 { STO | YTP | CIN | C8 | AUTY }
    else if op == 0x26 { STO | AUTA }
    else if op == 0x27 { STO }
    else if 0x38 <= op && op <= 0x3b { CKP | CKN | MTP | NE }
    else if op == 0x3c { MTP | NATN | CIN | C8 | AUTA }
    else if op == 0x3d { NATN | CIN | C8 | AUTA }
    else if op == 0x3e { MTP | CIN | C8 | AUTA }
    else if op == 0x3f { MTP | NE }
    else if 0x40 <= op && op <= 0x4f { CKP | AUTY }
    else if 0x50 <= op && op <= 0x5f { YTP | CKN | NE }
    else if 0x60 <= op && op <= 0x6f { CKM | YTP | CIN | AUTY }
    else if 0x70 <= op && op <= 0x7e { CKP | ATN | CIN | C8 | AUTA }
    else if op == 0x7f { CKP | CIN | C8 | AUTA }
    else { 0 }
}

/// An entry in the instruction-decode PLA: the set of micro-instructions
/// that the opcode enables, as a 16-bit mask of the constants above.
#[derive(Clone, Copy, Debug, PartialEq, Eq, Structural)]
pub struct Entry(pub u16);

impl Entry {
    /// The entry that the TMS1100 holds before the first fetch: no
    /// micro-instruction enabled.
    pub fn init() -> (r: Entry)
        ensures
            r.0 == 0,
    {
        Entry(0)
    }

    /// Whether this entry enables the given micro-instruction.
    pub fn enables(&self, micro: u16) -> (r: bool)
        ensures
            r == (self.0 & micro != 0),
    {
        self.0 & micro != 0
    }

    /// The PLA entry of the given opcode.
    pub fn decode(op: u8) -> (r: Entry)
        ensures
            r.0 == micro_of(op),
    {
        match op {
            0x00 => Entry(MTP | ATN | NE),
            0x01 => Entry(MTP | NATN | CIN | C8),
            0x02 => Entry(YTP | ATN | NE | STSL),
            0x03 => Entry(MTP | STO | AUTA),
            0x04 => Entry(YTP | FTN | C8 | AUTY),
            0x05 => Entry(YTP | CIN | C8 | AUTY),
            0x06 => Entry(ATN | MTP | C8 | AUTA),
            0x07 => Entry(MTP | FTN | C8 | AUTA),
            0x08 => Entry(CKP | AUTA),
            0x0e => Entry(CKP | NE),
            0x20 => Entry(ATN | AUTY),
            0x21 => Entry(MTP | AUTA),
            0x22 => Entry(MTP | AUTY),
            0x23 => Entry(YTP | AUTA),
            0x24 => Entry(STO | YTP | FTN | C8 | AUTY),
            0x25 => Entry(STO | YTP | CIN | C8 | AUTY),
            0x26 => Entry(STO | AUTA),
            0x27 => Entry(STO),
            0x38..=0x3b => Entry(CKP | CKN | MTP | NE),
            0x3c => Entry(MTP | NATN | CIN | C8 | AUTA),
            0x3d => Entry(NATN | CIN | C8 | AUTA),
            0x3e => Entry(MTP | CIN | C8 | AUTA),
            0x3f => Entry(MTP | NE),
            0x40..=0x4f => Entry(CKP | AUTY),
            0x50..=0x5f => Entry(YTP | CKN | NE),
            0x60..=0x6f => Entry(CKM | YTP | CIN | AUTY),
            0x70..=0x7e => Entry(CKP | ATN | CIN | C8 | AUTA),
            0x7f => Entry(CKP | CIN | C8 | AUTA),
            _ => Entry(0),
        }
    }
}

/// The twelve instructions that bypass the PLA and run on hard-wired
/// (fixed, non-programmable) logic.
#[derive(Clone, Copy, Debug, PartialEq, Eq, Structural)]
pub enum Fixed {
    /// Branch within the current page when the status latch is set.
    Br,
    /// Call a subroutine when the status latch is set.
    Call,
    /// Return from a subroutine.
    Retn,
    /// Complement the chapter buffer CB.
    Comc,
    /// Complement the X register.
    Comx,
    /// Load the page buffer PB with a constant.
    Ldp,
    /// Load the X register with a file address.
    Ldx,
    /// Clear a bit of RAM at `(X, Y)`.
    Rbit,
    /// Set a bit of RAM at `(X, Y)`.
    Sbit,
    /// Clear the R output bit addressed by X and Y.
    Rstr,
    /// Set the R output bit addressed by X and Y.
    Setr,
    /// Transfer the status latch and accumulator to the O output.
    Tdo,
}

/// The fixed instruction (if any) that decodes from the given opcode.
pub open spec fn fixed_of(op: u8) -> Option<Fixed> {
    if op == 0x09 { Some(Fixed::Comx) }
    else if op == 0x0a { Some(Fixed::Tdo) }
    else if op == 0x0b { Some(Fixed::Comc) }
    else if op == 0x0c { Some(Fixed::Rstr) }
    else if op == 0x0d { Some(Fixed::Setr) }
    else if op == 0x0f { Some(Fixed::Retn) }
    else if 0x30 <= op && op <= 0x33 { Some(Fixed::Sbit) }
    else if 0x34 <= op && op <= 0x37 { Some(Fixed::Rbit) }
    else if 0x10 <= op && op <= 0x1f { Some(Fixed::Ldp) }
    else if 0x28 <= op && op <= 0x2f { Some(Fixed::Ldx) }
    else if 0x80 <= op && op <= 0xbf { Some(Fixed::Br) }
    else if 0xc0 <= op { Some(Fixed::Call) }
    else { None }
}

impl Fixed {
    /// The fixed instruction (if any) corresponding to the given opcode.
    pub fn decode(op: u8) -> (r: Option<Fixed>)
        ensures
            r == fixed_of(op),
    {
        match op {
            0x09 => Some(Fixed::Comx),
            0x0a => Some(Fixed::Tdo),
            0x0b => Some(Fixed::Comc),
            0x0c => Some(Fixed::Rstr),
            0x0d => Some(Fixed::Setr),
            0x0f => Some(Fixed::Retn),
            0x30..=0x33 => Some(Fixed::Sbit),
            0x34..=0x37 => Some(Fixed::Rbit),
            0x10..=0x1f => Some(Fixed::Ldp),
            0x28..=0x2f => Some(Fixed::Ldx),
            0x80..=0xbf => Some(Fixed::Br),
            0xc0..=0xff => Some(Fixed::Call),
            _ => None,
        }
    }
}

} // verus!

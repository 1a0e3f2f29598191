//! A cycle-accurate model of the TMS1100 micro-processor.
//!
//! Every instruction runs over six sub-cycles; one `clock` call performs
//! exactly the work of the current sub-cycle and advances the counter.
//! The spec function `tms_step` (built from `step_cycle0`, `step_cycle1`,
//! `step_cycle2` and `step_cycle4`; the other two sub-cycles are idle)
//! states the transition of each sub-cycle, and `clock`'s contract pins
//! the processor to it.

use crate::bits::{bit16, lemma_nib_or_and, or_nib, lemma_u16_and11, lemma_u16_or11, lemma_u32_mask11,
    lemma_u32_mask4};
use crate::common::Line;
use crate::memory::{ram_index, rom_index, Ram, RamAddr, Rom, RomAddr};
use crate::pla::{fixed_of, micro_of, Entry, Fixed, ATN, AUTA, AUTY, C8, CIN, CKM, CKN, CKP, FTN,
    MTN, MTP, NATN, NE, STO, STSL, YTP};
use vstd::prelude::*;

verus! {

/// The 11-bit pin outputs R[0-10].
///
/// The cartridge wires these to the LCD driver, the buzzer, the rotary
/// controller and the keypad column drivers.
#[derive(Clone, Copy, Debug, PartialEq, Eq, Structural)]
pub struct OutputR(pub u16);

impl OutputR {
    /// Whether the given pin (0 to 10) is driven high.
    pub fn get(&self, nth: u16) -> (r: bool)
        requires
            nth < 11,
        ensures
            r == bit16(self.0, nth),
    {
        (self.0 >> nth) & 1 == 1
    }

    /// The raw 11-bit value on the pins.
    pub fn value(&self) -> (r: u16)
        ensures
            r == self.0,
    {
        self.0
    }

    /// The latch pulse line of the LCD driver (pin 6).
    pub fn latch_pulse(&self) -> (r: Line)
        ensures
            r.0 == bit16(self.0, 6),
    {
        Line::new(self.get(6))
    }

    /// The not-data-clock line of the LCD driver (pin 7).
    pub fn not_clock(&self) -> (r: Line)
        ensures
            r.0 == bit16(self.0, 7),
    {
        Line::new(self.get(7))
    }

    /// The buzzer pulse line (pin 0).
    pub fn buzzer_pulse(&self) -> (r: Line)
        ensures
            r.0 == bit16(self.0, 0),
    {
        Line::new(self.get(0))
    }

    /// The rotary charge line (pin 2).
    pub fn rotary_charge(&self) -> (r: Line)
        ensures
            r.0 == bit16(self.0, 2),
    {
        Line::new(self.get(2))
    }

    /// Whether keypad column `n` (0 to 2) is selected for scanning;
    /// columns 0, 1 and 2 sit on pins 10, 9 and 8.
    pub fn nth_keyboard(&self, n: u16) -> (r: bool)
        requires
            n < 3,
        ensures
            r == bit16(self.0, (10 - n) as u16),
    {
        self.get(10 - n)
    }
}

/// The 5-bit pin outputs O[0-4], the LCD driver's data input before the
/// cartridge's output PLA.
#[derive(Clone, Copy, Debug, PartialEq, Eq, Structural)]
pub struct OutputO(pub u8);

/// The 4-bit pin inputs K[1,2,4,8], driven by the selected keypad column
/// and the rotary controller's timed-out charge.
#[derive(Clone, Copy, Debug, PartialEq, Eq, Structural)]
pub struct InputK(pub u8);

/// The arithmetic logic unit: a 4-bit adder with carry input and a
/// status output that micro-instructions AND conditions into.
#[derive(Clone, Copy, Debug, PartialEq, Eq, Structural)]
pub struct Alu {
    /// The 4-bit P (left) input.
    pub p: u8,
    /// The 4-bit N (right) input.
    pub n: u8,
    /// The 4-bit output of the most recent addition.
    pub res: u8,
    /// The carry input; when set, one more is added to P and N.
    pub carry_in: bool,
    /// The status output: carry and comparison results AND into it.
    pub status: bool,
}

/// The adder state after one clock: P plus N plus the carry input,
/// truncated to 4 bits; the status ANDed with the carry-out when
/// `carry_to_status`, and with `P != N` when `compare_to_status`.
pub open spec fn alu_step(a: Alu, carry_to_status: bool, compare_to_status: bool) -> Alu {
    let sum = a.p + a.n + (if a.carry_in { 1int } else { 0int });
    let st1 = if carry_to_status { a.status && sum > 15 } else { a.status };
    let st2 = if compare_to_status { st1 && a.p != a.n } else { st1 };
    Alu { res: (sum % 16) as u8, status: st2, ..a }
}

impl Alu {
    /// The inputs and the output fit their 4-bit width.
    pub open spec fn wf(self) -> bool {
        self.p < 16 && self.n < 16 && self.res < 16
    }

    /// A powered-down adder: everything zero, status low.
    pub fn new() -> (r: Alu)
        ensures
            r == (Alu { p: 0, n: 0, res: 0, carry_in: false, status: false }),
    {
        Alu { p: 0, n: 0, res: 0, carry_in: false, status: false }
    }

    /// Clear the adder for the next instruction; the status output
    /// starts high so that later conditions can only pull it low.
    pub fn reset(&mut self)
        ensures
            *final(self) == (Alu { p: 0, n: 0, res: 0, carry_in: false, status: true }),
    {
        *self = Alu::new();
        self.status = true;
    }

    /// Perform the addition and fold the selected conditions into the
    /// status output.
    pub fn clock(&mut self, carry_to_status: bool, compare_to_status: bool)
        requires
            old(self).wf(),
        ensures
            final(self).wf(),
            *final(self) == alu_step(*old(self), carry_to_status, compare_to_status),
    {
        let sum = self.p + self.n + (if self.carry_in { 1 } else { 0 });
        self.res = sum % 16;
        if carry_to_status {
            self.status = self.status && sum > 15;
        }
        if compare_to_status {
            self.status = self.status && self.p != self.n;
        }
    }
}

/// The branch/status flags of the TMS1100.
#[derive(Clone, Copy, Debug, PartialEq, Eq, Structural)]
pub struct Flags {
    /// The call latch C: set by CALL, cleared by RETN, and guarding
    /// page changes in between.
    pub call: bool,
    /// The status latch SL, which gates branches and calls.
    pub status: bool,
}

/// The sub-instruction cycle counter: each instruction spans the six
/// cycles in order.
#[derive(Clone, Copy, Debug, PartialEq, Eq, Structural)]
pub enum Cycle {
    /// Branch resolution, CKI and RAM reads, adder reset.
    On0,
    /// The adder inputs are staged.
    On1,
    /// The adder computes; fixed instructions act; RAM is written.
    On2,
    /// Idle.
    On3,
    /// Register writeback and the next opcode fetch.
    On4,
    /// Idle.
    On5,
}

/// The cycle that follows the given one, wrapping after the sixth.
pub open spec fn cycle_next(c: Cycle) -> Cycle {
    match c {
        Cycle::On0 => Cycle::On1,
        Cycle::On1 => Cycle::On2,
        Cycle::On2 => Cycle::On3,
        Cycle::On3 => Cycle::On4,
        Cycle::On4 => Cycle::On5,
        Cycle::On5 => Cycle::On0,
    }
}

/// The position (0 to 5) of a cycle within the instruction.
pub open spec fn cycle_index(c: Cycle) -> int {
    match c {
        Cycle::On0 => 0,
        Cycle::On1 => 1,
        Cycle::On2 => 2,
        Cycle::On3 => 3,
        Cycle::On4 => 4,
        Cycle::On5 => 5,
    }
}

impl Cycle {
    /// Advance to the next sub-instruction cycle.
    pub fn next(&mut self)
        ensures
            *final(self) == cycle_next(*old(self)),
    {
        *self = match self {
            Cycle::On0 => Cycle::On1,
            Cycle::On1 => Cycle::On2,
            Cycle::On2 => Cycle::On3,
            Cycle::On3 => Cycle::On4,
            Cycle::On4 => Cycle::On5,
            Cycle::On5 => Cycle::On0,
        };
    }
}

/// The cycle counter visits the six positions in order, forever: each
/// step advances the position by one modulo six, and six steps return
/// any cycle to itself.
pub proof fn lemma_cycle_order(c: Cycle)
    ensures
        cycle_index(cycle_next(c)) == (cycle_index(c) + 1) % 6,
        cycle_next(cycle_next(cycle_next(cycle_next(cycle_next(cycle_next(c)))))) == c,
{
}

/// The processor state after one sub-cycle: the work of the current
/// cycle, dispatched on the counter, with the counter advanced.
pub open spec fn tms_step(s: Tms1100, rom: Seq<u8>, ram: Seq<u8>) -> Tms1100 {
    match s.cycle {
        Cycle::On0 => step_cycle0(s, ram[ram_index(s.x, s.y)]),
        Cycle::On1 => step_cycle1(s),
        Cycle::On2 => step_cycle2(s),
        Cycle::On3 => Tms1100 { cycle: Cycle::On4, ..s },
        Cycle::On4 => step_cycle4(s, rom),
        Cycle::On5 => Tms1100 { cycle: Cycle::On0, ..s },
    }
}

/// The RAM contents after one sub-cycle: only sub-cycle 2 writes, at
/// the `(X, Y)` address it leaves behind.
pub open spec fn tms_ram_after(s: Tms1100, ram: Seq<u8>) -> Seq<u8> {
    if s.cycle is On2 {
        ram.update(ram_index(step_cycle2(s).x, step_cycle2(s).y), step_cycle2(s).ram_data)
    } else {
        ram
    }
}

/// Every sub-cycle advances the counter by exactly one position, so the
/// six positions are visited in order, forever.
pub proof fn lemma_clock_advances_cycle(s: Tms1100, rom: Seq<u8>, ram: Seq<u8>)
    ensures
        tms_step(s, rom, ram).cycle == cycle_next(s.cycle),
        cycle_index(tms_step(s, rom, ram).cycle) == (cycle_index(s.cycle) + 1) % 6,
{
}

/// A branch taken outside a call: for every opcode in the branch range,
/// when the status latch is set and no call is pending, the fetch
/// address after the branch resolves is assembled from the chapter
/// buffer, the page buffer and the opcode's low six bits —
/// `(CB << 10) | (PB << 6) | (opcode & 0x3f)`.
pub proof fn lemma_branch_target(s: Tms1100, ram_val: u8)
    requires
        s.wf(),
        s.cycle is On0,
        0x80 <= s.opcode <= 0xbf,
        s.fixed == fixed_of(s.opcode),
        s.flags.status,
        !s.flags.call,
    ensures
        ({
            let t = step_cycle0(s, ram_val);
            rom_index(t.ca, t.pa, t.pc) == s.cb * 1024 + s.pb * 64 + s.opcode % 64
        }),
{
}

/// A call taken when no call is pending saves the return point: the
/// chapter into CS, the page into PB and the program counter into SR,
/// and raises the call latch.
pub proof fn lemma_call_saves(s: Tms1100, ram_val: u8)
    requires
        s.wf(),
        s.cycle is On0,
        0xc0 <= s.opcode,
        s.fixed == fixed_of(s.opcode),
        s.flags.status,
        !s.flags.call,
    ensures
        ({
            let t = step_cycle0(s, ram_val);
            &&& t.flags.call
            &&& t.cs == s.ca
            &&& t.pb == s.pa
            &&& t.sr == s.pc
        }),
{
}

/// A return with the call latch set hands control back to the saved
/// `(CS, PA, SR)` triple: the chapter comes from CS, the page from PB
/// (where the call left the old PA), the program counter from SR, and
/// the call latch falls.
pub proof fn lemma_retn_returns(s: Tms1100, ram_val: u8)
    requires
        s.wf(),
        s.cycle is On0,
        s.opcode == 0x0f,
        s.fixed == fixed_of(s.opcode),
        s.flags.call,
    ensures
        ({
            let t = step_cycle0(s, ram_val);
            &&& !t.flags.call
            &&& t.ca == s.cs
            &&& t.pa == s.pb
            &&& t.pc == s.sr
            &&& rom_index(t.ca, t.pa, t.pc) == s.cs * 1024 + s.pb * 64 + s.sr
        }),
{
}

/// Whether the PLA entry `m` enables the micro-instruction `bit`.
pub open spec fn enabled(m: Entry, bit: u16) -> bool {
    m.0 & bit != 0
}

/// The bit-reversal of a nibble: bit 0 swaps with bit 3, bit 1 with 2.
pub open spec fn rev4(v: u8) -> u8 {
    ((v % 2) * 8 + ((v / 2) % 2) * 4 + ((v / 4) % 2) * 2 + (v / 8) % 2) as u8
}

/// Reverse the four bits of a nibble.
pub fn reverse_nibble(v: u8) -> (r: u8)
    requires
        v < 16,
    ensures
        r == rev4(v),
        r < 16,
{
    (v % 2) * 8 + ((v / 2) % 2) * 4 + ((v / 4) % 2) * 2 + (v / 8) % 2
}

/// The successor of the 6-bit program counter under its LFSR rule: the
/// value shifts left one place and the AND of its top two bits feeds
/// bit 0, except that `0b011111` feeds 1 and `0b111111` feeds 0.
///
/// This feedback does not walk the full 6-bit space: the all-zero
/// value feeds 0 and so maps to itself (and `0b100000` also steps to
/// zero), so no starting value returns to itself in 64 steps.
pub open spec fn lfsr_next(pc: u8) -> u8 {
    let fb: int = if pc == 31 {
        1
    } else if pc == 63 {
        0
    } else if (pc / 16) % 2 == 1 && (pc / 32) % 2 == 1 {
        1
    } else {
        0
    };
    ((pc * 2 + fb) % 64) as u8
}

/// The value on the CKI bus for the given opcode: the K inputs for the
/// `TKA` row, a bit selector for the bit-instruction rows (whose shift
/// runs past the nibble and therefore latches zero), the opcode's
/// reversed low nibble for the constant rows, and zero elsewhere.
pub open spec fn cki_of(op: u8, constant: u8, k: u8) -> u8 {
    let grp = op / 8;
    if grp == 1 {
        k
    } else if grp == 6 || grp == 7 {
        (((1u32 << ((15 - constant / 4) as u32)) & 0xf) as u8)
    } else if grp == 0 || (8 <= grp && grp <= 15) {
        constant
    } else {
        0
    }
}

/// The single-bit mask of the R output addressed by the X and Y
/// registers: bit `(X >> 2) << 4 | Y`, masked to the 11-bit width.
pub open spec fn r_mask(x: u8, y: u8) -> u16 {
    (((1u32 << (((x / 4) * 16 + y) as u32)) & 0x7ff) as u16)
}

/// An emulated TMS1100 micro-processor.
#[derive(Clone, Debug)]
pub struct Tms1100 {
    /// The 11-bit pin outputs R[0-10].
    pub r: OutputR,
    /// The 5-bit pin outputs O[0-4].
    pub o: OutputO,
    /// The 4-bit pin inputs K[1,2,4,8].
    pub k: InputK,
    /// The arithmetic logic unit.
    pub alu: Alu,
    /// The branch/status flags.
    pub flags: Flags,
    /// The 4-bit accumulator A.
    pub a: u8,
    /// The 3-bit RAM address register X.
    pub x: u8,
    /// The 4-bit RAM address register Y.
    pub y: u8,
    /// The 6-bit program counter PC.
    pub pc: u8,
    /// The 6-bit subroutine return register SR.
    pub sr: u8,
    /// The 4-bit page address register PA.
    pub pa: u8,
    /// The 4-bit page buffer register PB.
    pub pb: u8,
    /// The 1-bit chapter address latch CA.
    pub ca: u8,
    /// The 1-bit chapter buffer latch CB.
    pub cb: u8,
    /// The 1-bit chapter subroutine latch CS.
    pub cs: u8,
    /// The sub-instruction cycle counter.
    pub cycle: Cycle,
    /// The currently executing opcode.
    pub opcode: u8,
    /// The fixed instruction of the current opcode, if any.
    pub fixed: Option<Fixed>,
    /// The micro-instruction PLA entry of the current opcode.
    pub micro: Entry,
    /// The current opcode's low nibble, bit-reversed.
    pub constant: u8,
    /// The value read from, or to be written to, RAM.
    pub ram_data: u8,
    /// The CKI data latch.
    pub cki_latch: u8,
}

/// The processor state after the branch-family instruction that is
/// completing has updated the page, chapter and program counter.
pub open spec fn branch_resolved(s: Tms1100) -> Tms1100 {
    if s.fixed == Some(Fixed::Br) && s.flags.status {
        Tms1100 {
            pa: if !s.flags.call { s.pb } else { s.pa },
            ca: s.cb,
            pc: s.opcode % 64,
            ..s
        }
    } else if s.fixed == Some(Fixed::Call) && s.flags.status {
        if !s.flags.call {
            Tms1100 {
                flags: Flags { call: true, ..s.flags },
                sr: s.pc,
                pa: s.pb,
                cs: s.ca,
                ca: s.cb,
                pb: s.pa,
                pc: s.opcode % 64,
                ..s
            }
        } else {
            Tms1100 { ca: s.cb, pb: s.pa, pc: s.opcode % 64, ..s }
        }
    } else if s.fixed == Some(Fixed::Retn) {
        if s.flags.call {
            Tms1100 {
                flags: Flags { call: false, ..s.flags },
                pc: s.sr,
                ca: s.cs,
                pa: s.pb,
                ..s
            }
        } else {
            Tms1100 { pa: s.pb, ..s }
        }
    } else {
        s
    }
}

/// Sub-cycle 0: resolve an in-flight branch, call or return; latch the
/// CKI bus; read RAM at `(X, Y)` (the caller passes that value as
/// `ram_val`); reset the adder.
pub open spec fn step_cycle0(s: Tms1100, ram_val: u8) -> Tms1100 {
    let b = branch_resolved(s);
    Tms1100 {
        cki_latch: cki_of(s.opcode, s.constant, s.k.0),
        ram_data: ram_val,
        alu: Alu { p: 0, n: 0, res: 0, carry_in: false, status: true },
        cycle: Cycle::On1,
        ..b
    }
}

/// Sub-cycle 1: OR the operands of every enabled micro-instruction into
/// the adder's inputs and carry line.
pub open spec fn step_cycle1(s: Tms1100) -> Tms1100 {
    let n1 = if enabled(s.micro, FTN) { s.alu.n | 0xf } else { s.alu.n };
    let n2 = if enabled(s.micro, ATN) { n1 | s.a } else { n1 };
    let n3 = if enabled(s.micro, NATN) { n2 | ((15 - s.a) as u8) } else { n2 };
    let n4 = if enabled(s.micro, CKN) { n3 | s.cki_latch } else { n3 };
    let n5 = if enabled(s.micro, MTN) { n4 | s.ram_data } else { n4 };
    let p1 = if enabled(s.micro, CKP) { s.alu.p | s.cki_latch } else { s.alu.p };
    let p2 = if enabled(s.micro, MTP) { p1 | s.ram_data } else { p1 };
    let p3 = if enabled(s.micro, YTP) { p2 | s.y } else { p2 };
    let ci = s.alu.carry_in || enabled(s.micro, CIN);
    Tms1100 {
        alu: Alu { p: p3, n: n5, carry_in: ci, ..s.alu },
        cycle: Cycle::On2,
        ..s
    }
}

/// Sub-cycle 2: clock the adder, stage the RAM write data, execute the
/// remaining fixed instructions. The staged `ram_data` is then written
/// to RAM at the (possibly just-changed) `(X, Y)` address.
pub open spec fn step_cycle2(s: Tms1100) -> Tms1100 {
    let alu2 = alu_step(s.alu, enabled(s.micro, C8), enabled(s.micro, NE));
    let rd1 = if enabled(s.micro, CKM) { s.cki_latch } else { s.ram_data };
    let rd2 = if enabled(s.micro, STO) { s.a } else { rd1 };
    let rd3 = if s.fixed == Some(Fixed::Rbit) {
        rd2 & s.cki_latch
    } else if s.fixed == Some(Fixed::Sbit) {
        rd2 | ((15 - s.cki_latch) as u8)
    } else {
        rd2
    };
    let x2 = if s.fixed == Some(Fixed::Comx) {
        ((7 - s.x) as u8)
    } else if s.fixed == Some(Fixed::Ldx) {
        s.constant / 2
    } else {
        s.x
    };
    let cb2 = if s.fixed == Some(Fixed::Comc) { ((1 - s.cb) as u8) } else { s.cb };
    let pb2 = if s.fixed == Some(Fixed::Ldp) { s.constant } else { s.pb };
    let r2 = if s.fixed == Some(Fixed::Rstr) {
        s.r.0 & ((2047 - r_mask(s.x, s.y)) as u16)
    } else if s.fixed == Some(Fixed::Setr) {
        s.r.0 | r_mask(s.x, s.y)
    } else {
        s.r.0
    };
    let o2 = if s.fixed == Some(Fixed::Tdo) {
        (if s.flags.status { 1u8 } else { 0u8 }) | s.a
    } else {
        s.o.0
    };
    Tms1100 {
        alu: alu2,
        ram_data: rd3,
        x: x2,
        cb: cb2,
        pb: pb2,
        r: OutputR(r2),
        o: OutputO(o2),
        cycle: Cycle::On3,
        ..s
    }
}

/// The next-opcode fetch at the end of sub-cycle 4: the opcode at
/// `(CA, PA, PC)` in ROM, its decodes and reversed constant, and the
/// program counter advanced by the LFSR rule.
pub open spec fn fetched(s: Tms1100, rom: Seq<u8>) -> Tms1100 {
    let op = rom[rom_index(s.ca, s.pa, s.pc)];
    Tms1100 {
        opcode: op,
        constant: rev4(op % 16),
        fixed: fixed_of(op),
        micro: Entry(micro_of(op)),
        pc: lfsr_next(s.pc),
        ..s
    }
}

/// Sub-cycle 4: write the adder's output and status back to the selected
/// registers, then fetch the next opcode.
pub open spec fn step_cycle4(s: Tms1100, rom: Seq<u8>) -> Tms1100 {
    let w = Tms1100 {
        a: if enabled(s.micro, AUTA) { s.alu.res } else { s.a },
        y: if enabled(s.micro, AUTY) { s.alu.res } else { s.y },
        flags: Flags {
            status: if enabled(s.micro, STSL) { s.alu.status } else { s.flags.status },
            ..s.flags
        },
        ..s
    };
    Tms1100 { cycle: Cycle::On5, ..fetched(w, rom) }
}

/// The CKI bus value fits its 4-bit width.
proof fn lemma_cki_range(op: u8, constant: u8, k: u8)
    requires
        constant < 16,
        k < 16,
    ensures
        cki_of(op, constant, k) < 16,
{
    lemma_u32_mask4(1u32 << ((15 - constant / 4) as u32));
}

impl Tms1100 {
    /// Every register and latch fits its declared bit width.
    pub open spec fn wf(self) -> bool {
        &&& self.r.0 < 2048
        &&& self.o.0 < 32
        &&& self.k.0 < 16
        &&& self.alu.wf()
        &&& self.a < 16
        &&& self.x < 8
        &&& self.y < 16
        &&& self.pc < 64
        &&& self.sr < 64
        &&& self.pa < 16
        &&& self.pb < 16
        &&& self.ca < 2
        &&& self.cb < 2
        &&& self.cs < 2
        &&& self.constant < 16
        &&& self.ram_data < 16
        &&& self.cki_latch < 16
    }

    /// A freshly powered-on processor: every register zero, the counter
    /// at the first sub-cycle, no instruction decoded.
    pub fn new() -> (r: Tms1100)
        ensures
            r.wf(),
            r == Tms1100::initial(),
    {
        Tms1100 {
            r: OutputR(0),
            o: OutputO(0),
            k: InputK(0),
            alu: Alu::new(),
            flags: Flags { call: false, status: false },
            a: 0,
            x: 0,
            y: 0,
            pc: 0,
            sr: 0,
            pa: 0,
            pb: 0,
            ca: 0,
            cb: 0,
            cs: 0,
            cycle: Cycle::On0,
            opcode: 0,
            fixed: None,
            micro: Entry::init(),
            constant: 0,
            ram_data: 0,
            cki_latch: 0,
        }
    }

    /// The power-on state that `new` and `reset` produce.
    pub open spec fn initial() -> Tms1100 {
        Tms1100 {
            r: OutputR(0),
            o: OutputO(0),
            k: InputK(0),
            alu: Alu { p: 0, n: 0, res: 0, carry_in: false, status: false },
            flags: Flags { call: false, status: false },
            a: 0,
            x: 0,
            y: 0,
            pc: 0,
            sr: 0,
            pa: 0,
            pb: 0,
            ca: 0,
            cb: 0,
            cs: 0,
            cycle: Cycle::On0,
            opcode: 0,
            fixed: None,
            micro: Entry(0),
            constant: 0,
            ram_data: 0,
            cki_latch: 0,
        }
    }

    /// Return this processor to its power-on state.
    pub fn reset(&mut self)
        ensures
            final(self).wf(),
            *final(self) == Tms1100::initial(),
    {
        *self = Tms1100::new();
    }

    /// Advance the program counter by the LFSR rule.
    fn next_pc(&mut self)
        requires
            old(self).pc < 64,
        ensures
            *final(self) == (Tms1100 { pc: lfsr_next(old(self).pc), ..*old(self) }),
            final(self).pc < 64,
    {
        let fb: u8 = if self.pc == 31 {
            1
        } else if self.pc == 63 {
            0
        } else if (self.pc / 16) % 2 == 1 && (self.pc / 32) % 2 == 1 {
            1
        } else {
            0
        };
        self.pc = (self.pc * 2 + fb) % 64;
    }

    /// Fetch the opcode at `(CA, PA, PC)`, decode it, and advance the
    /// program counter.
    fn next_opcode(&mut self, rom: &Rom)
        requires
            old(self).wf(),
            rom.wf(),
        ensures
            *final(self) == (Tms1100 { cycle: old(self).cycle, ..fetched(*old(self), rom@) }),
            final(self).wf(),
    {
        self.opcode = rom.read(RomAddr::new(self.ca, self.pa, self.pc));
        self.constant = reverse_nibble(self.opcode % 16);
        self.fixed = Fixed::decode(self.opcode);
        self.micro = Entry::decode(self.opcode);
        self.next_pc();
    }

    /// Latch the CKI bus for the current opcode.
    fn read_cki(&mut self)
        requires
            old(self).constant < 16,
            old(self).k.0 < 16,
        ensures
            *final(self) == (Tms1100 {
                cki_latch: cki_of(old(self).opcode, old(self).constant, old(self).k.0),
                ..*old(self)
            }),
            final(self).cki_latch < 16,
    {
        proof {
            lemma_cki_range(self.opcode, self.constant, self.k.0);
        }
        let grp = self.opcode / 8;
        self.cki_latch = if grp == 1 {
            self.k.0
        } else if grp == 6 || grp == 7 {
            (((1u32 << ((15 - self.constant / 4) as u32)) & 0xf) as u8)
        } else if grp == 0 || (grp >= 8 && grp <= 15) {
            self.constant
        } else {
            0
        };
    }

    /// Execute sub-cycle 0: branch resolution, CKI and RAM reads, and
    /// the adder reset.
    fn exec_0(&mut self, ram: &Ram)
        requires
            old(self).wf(),
            ram.wf(),
        ensures
            *final(self) == (Tms1100 {
                cycle: old(self).cycle,
                ..step_cycle0(*old(self), ram@[ram_index(old(self).x, old(self).y)])
            }),
            final(self).wf(),
    {
        match self.fixed {
            Some(Fixed::Br) => {
                if self.flags.status {
                    if !self.flags.call {
                        self.pa = self.pb;
                    }
                    self.ca = self.cb;
                    self.pc = self.opcode % 64;
                }
            },
            Some(Fixed::Call) => {
                if self.flags.status {
                    let prev_pa = self.pa;
                    if !self.flags.call {
                        self.flags.call = true;
                        self.sr = self.pc;
                        self.pa = self.pb;
                        self.cs = self.ca;
                    }
                    self.ca = self.cb;
                    self.pb = prev_pa;
                    self.pc = self.opcode % 64;
                }
            },
            Some(Fixed::Retn) => {
                if self.flags.call {
                    self.flags.call = false;
                    self.pc = self.sr;
                    self.ca = self.cs;
                }
                self.pa = self.pb;
            },
            _ => {},
        }
        self.read_cki();
        self.ram_data = ram.read(RamAddr::new(self.x, self.y));
        self.alu.reset();
    }

    /// Execute sub-cycle 1: stage the adder's inputs from the enabled
    /// micro-instructions.
    fn exec_1(&mut self)
        requires
            old(self).wf(),
        ensures
            *final(self) == (Tms1100 { cycle: old(self).cycle, ..step_cycle1(*old(self)) }),
            final(self).wf(),
    {
        let n1 = if self.micro.enables(FTN) { or_nib(self.alu.n, 0xf) } else { self.alu.n };
        let n2 = if self.micro.enables(ATN) { or_nib(n1, self.a) } else { n1 };
        let n3 = if self.micro.enables(NATN) { or_nib(n2, 15 - self.a) } else { n2 };
        let n4 = if self.micro.enables(CKN) { or_nib(n3, self.cki_latch) } else { n3 };
        let n5 = if self.micro.enables(MTN) { or_nib(n4, self.ram_data) } else { n4 };
        let p1 = if self.micro.enables(CKP) { or_nib(self.alu.p, self.cki_latch) } else { self.alu.p };
        let p2 = if self.micro.enables(MTP) { or_nib(p1, self.ram_data) } else { p1 };
        let p3 = if self.micro.enables(YTP) { or_nib(p2, self.y) } else { p2 };
        let ci = self.alu.carry_in || self.micro.enables(CIN);
        self.alu.n = n5;
        self.alu.p = p3;
        self.alu.carry_in = ci;
    }

    /// Execute sub-cycle 2: clock the adder, stage and write the RAM
    /// data, and run the remaining fixed instructions.
    fn exec_2(&mut self, ram: &mut Ram)
        requires
            old(self).wf(),
            old(ram).wf(),
        ensures
            *final(self) == (Tms1100 { cycle: old(self).cycle, ..step_cycle2(*old(self)) }),
            final(self).wf(),
            final(ram).wf(),
            final(ram)@ == old(ram)@.update(
                ram_index(step_cycle2(*old(self)).x, step_cycle2(*old(self)).y),
                step_cycle2(*old(self)).ram_data,
            ),
    {
        let c8 = self.micro.enables(C8);
        let ne = self.micro.enables(NE);
        self.alu.clock(c8, ne);
        if self.micro.enables(CKM) {
            self.ram_data = self.cki_latch;
        }
        if self.micro.enables(STO) {
            self.ram_data = self.a;
        }
        match self.fixed {
            Some(Fixed::Comc) => {
                self.cb = 1 - self.cb;
            },
            Some(Fixed::Comx) => {
                self.x = 7 - self.x;
            },
            Some(Fixed::Ldp) => {
                self.pb = self.constant;
            },
            Some(Fixed::Ldx) => {
                self.x = self.constant / 2;
            },
            Some(Fixed::Rbit) => {
                proof {
                    lemma_nib_or_and(self.ram_data, self.cki_latch);
                }
                self.ram_data = self.ram_data & self.cki_latch;
            },
            Some(Fixed::Sbit) => {
                self.ram_data = or_nib(self.ram_data, 15 - self.cki_latch);
            },
            Some(Fixed::Rstr) => {
                let idx = (self.x / 4) * 16 + self.y;
                let mask = ((1u32 << (idx as u32)) & 0x7ff) as u16;
                proof {
                    lemma_u32_mask11(1u32 << (idx as u32));
                    lemma_u16_and11(self.r.0, (2047 - mask) as u16);
                }
                self.r.0 = self.r.0 & (2047 - mask);
            },
            Some(Fixed::Setr) => {
                let idx = (self.x / 4) * 16 + self.y;
                let mask = ((1u32 << (idx as u32)) & 0x7ff) as u16;
                proof {
                    lemma_u32_mask11(1u32 << (idx as u32));
                    lemma_u16_or11(self.r.0, mask);
                }
                self.r.0 = self.r.0 | mask;
            },
            Some(Fixed::Tdo) => {
                self.o.0 = or_nib(if self.flags.status { 1 } else { 0 }, self.a);
            },
            _ => {},
        }
        ram.write(RamAddr::new(self.x, self.y), self.ram_data);
    }

    /// Execute sub-cycle 4: register writeback and the next opcode
    /// fetch.
    fn exec_4(&mut self, rom: &Rom)
        requires
            old(self).wf(),
            rom.wf(),
        ensures
            *final(self) == (Tms1100 { cycle: old(self).cycle, ..step_cycle4(*old(self), rom@) }),
            final(self).wf(),
    {
        if self.micro.enables(AUTA) {
            self.a = self.alu.res;
        }
        if self.micro.enables(AUTY) {
            self.y = self.alu.res;
        }
        if self.micro.enables(STSL) {
            self.flags.status = self.alu.status;
        }
        self.next_opcode(rom);
    }

    /// Execute one sub-instruction cycle — one sixth of an instruction —
    /// against the cartridge's ROM and RAM, then advance the counter.
    pub fn clock(&mut self, rom: &Rom, ram: &mut Ram)
        requires
            old(self).wf(),
            rom.wf(),
            old(ram).wf(),
        ensures
            final(self).wf(),
            final(ram).wf(),
            *final(self) == tms_step(*old(self), rom@, old(ram)@),
            final(ram)@ == tms_ram_after(*old(self), old(ram)@),
    {
        match self.cycle {
            Cycle::On0 => self.exec_0(ram),
            Cycle::On1 => self.exec_1(),
            Cycle::On2 => self.exec_2(ram),
            Cycle::On3 => {},
            Cycle::On4 => self.exec_4(rom),
            Cycle::On5 => {},
        }
        self.cycle.next();
    }
}

} // verus!

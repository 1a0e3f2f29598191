//! Instruction-level scenarios against the TMS1100 model.

use milton::memory::{Ram, RamAddr, Rom};
use milton::pla::{Entry, Fixed};
use milton::tms1100::{Cycle, InputK, Tms1100};

/// Latch an opcode into the processor as a completed fetch would.
fn load_op(cpu: &mut Tms1100, op: u8) {
    cpu.opcode = op;
    cpu.constant = milton::tms1100::reverse_nibble(op % 16);
    cpu.fixed = Fixed::decode(op);
    cpu.micro = Entry::decode(op);
}

/// Run the six sub-cycles of one full instruction.
fn run_instruction(cpu: &mut Tms1100, rom: &Rom, ram: &mut Ram) {
    for _ in 0..6 {
        cpu.clock(rom, ram);
    }
}

#[test]
fn cla_clears_accumulator() {
    // CLA (0x7f): CKP|CIN|C8|AUTA with constant 0xf; P = 0xf plus the
    // carry input overflows to 0 with a carry out, so the accumulator
    // clears and the adder's status stays high.
    let rom = Rom::new();
    let mut ram = Ram::new();
    let mut cpu = Tms1100::new();
    cpu.a = 5;
    load_op(&mut cpu, 0x7f);
    run_instruction(&mut cpu, &rom, &mut ram);
    assert_eq!(cpu.a, 0);
    assert!(cpu.alu.status);
    assert_eq!(cpu.alu.p, 0xf);
    assert!(cpu.alu.carry_in);
}

#[test]
fn tka_reads_k_inputs() {
    // TKA (0x08): the K inputs land in the accumulator; SL unchanged.
    let rom = Rom::new();
    let mut ram = Ram::new();
    let mut cpu = Tms1100::new();
    cpu.k = InputK(0b1010);
    load_op(&mut cpu, 0x08);
    let sl = cpu.flags.status;
    run_instruction(&mut cpu, &rom, &mut ram);
    assert_eq!(cpu.a, 0b1010);
    assert_eq!(cpu.flags.status, sl);
}

#[test]
fn setr_and_rstr_toggle_r_bit() {
    // With X = 0 and Y = 3, SETR sets bit (X>>2)<<4|Y = 3 of R and
    // RSTR clears it again; R keeps its 11-bit width throughout.
    let rom = Rom::new();
    let mut ram = Ram::new();
    let mut cpu = Tms1100::new();
    cpu.x = 0;
    cpu.y = 3;
    load_op(&mut cpu, 0x0d);
    run_instruction(&mut cpu, &rom, &mut ram);
    assert_eq!(cpu.r.value() >> 3 & 1, 1);
    assert!(cpu.r.value() < 2048);
    load_op(&mut cpu, 0x0c);
    run_instruction(&mut cpu, &rom, &mut ram);
    assert_eq!(cpu.r.value() >> 3 & 1, 0);
    assert!(cpu.r.value() < 2048);
}

#[test]
fn cycle_counter_wraps_in_order() {
    // The counter visits 0,1,2,3,4,5,0,1,... forever.
    let rom = Rom::new();
    let mut ram = Ram::new();
    let mut cpu = Tms1100::new();
    let expected = [
        Cycle::On0,
        Cycle::On1,
        Cycle::On2,
        Cycle::On3,
        Cycle::On4,
        Cycle::On5,
        Cycle::On0,
        Cycle::On1,
        Cycle::On2,
        Cycle::On3,
        Cycle::On4,
        Cycle::On5,
        Cycle::On0,
    ];
    for (i, want) in expected.iter().enumerate() {
        assert_eq!(cpu.cycle, *want, "after {i} ticks");
        cpu.clock(&rom, &mut ram);
    }
}

#[test]
fn registers_keep_their_widths() {
    // After any number of ticks every register still fits its width,
    // whatever opcodes run.
    let rom = Rom::new();
    let mut ram = Ram::new();
    let mut cpu = Tms1100::new();
    cpu.k = InputK(0xf);
    for op in [0x7f, 0x08, 0x0d, 0x30, 0x34, 0x09, 0x0b, 0x1f, 0x2f, 0x6f, 0xbf, 0xff, 0x0f] {
        load_op(&mut cpu, op);
        run_instruction(&mut cpu, &rom, &mut ram);
        assert!(cpu.a < 16 && cpu.x < 8 && cpu.y < 16);
        assert!(cpu.pc < 64 && cpu.sr < 64);
        assert!(cpu.pa < 16 && cpu.pb < 16);
        assert!(cpu.ca < 2 && cpu.cb < 2 && cpu.cs < 2);
        assert!(cpu.r.value() < 2048 && cpu.o.0 < 32 && cpu.k.0 < 16);
        for x in 0..8u8 {
            for y in 0..16u8 {
                assert!(ram.read(RamAddr::new(x, y)) < 16);
            }
        }
    }
}

#[test]
fn pc_follows_the_lfsr_rule() {
    // The two exception states: 0b011111 feeds 1, 0b111111 feeds 0;
    // and the all-zero state feeds 0 and therefore stays put.
    let rom = Rom::new();
    let mut ram = Ram::new();
    let mut cpu = Tms1100::new();
    load_op(&mut cpu, 0x00);

    cpu.pc = 31;
    run_instruction(&mut cpu, &rom, &mut ram);
    assert_eq!(cpu.pc, 63);
    run_instruction(&mut cpu, &rom, &mut ram);
    assert_eq!(cpu.pc, 62);
    run_instruction(&mut cpu, &rom, &mut ram);
    assert_eq!(cpu.pc, 61);

    cpu.pc = 0;
    run_instruction(&mut cpu, &rom, &mut ram);
    assert_eq!(cpu.pc, 0);
}

#[test]
fn branch_taken_loads_buffers() {
    // BR (0x80..=0xbf) with SL set and no call pending: PA takes PB,
    // CA takes CB, PC takes the opcode's low six bits.
    let rom = Rom::new();
    let mut ram = Ram::new();
    let mut cpu = Tms1100::new();
    cpu.flags.status = true;
    cpu.pb = 0x9;
    cpu.cb = 1;
    load_op(&mut cpu, 0xa5);
    cpu.clock(&rom, &mut ram);
    assert_eq!(cpu.pa, 0x9);
    assert_eq!(cpu.ca, 1);
    assert_eq!(cpu.pc, 0x25);
}

#[test]
fn branch_not_taken_without_status() {
    let rom = Rom::new();
    let mut ram = Ram::new();
    let mut cpu = Tms1100::new();
    cpu.flags.status = false;
    cpu.pc = 31;
    cpu.pb = 0x9;
    load_op(&mut cpu, 0xa5);
    cpu.clock(&rom, &mut ram);
    assert_eq!(cpu.pa, 0);
    assert_eq!(cpu.pc, 31);
}

#[test]
fn call_and_retn_round_trip() {
    // CALL saves (CA, PA, PC) into (CS, PB, SR); RETN restores them.
    let rom = Rom::new();
    let mut ram = Ram::new();
    let mut cpu = Tms1100::new();
    cpu.flags.status = true;
    cpu.pa = 0x3;
    cpu.pb = 0x7;
    cpu.ca = 1;
    cpu.cb = 0;
    cpu.pc = 0x15;
    load_op(&mut cpu, 0xc2);
    run_instruction(&mut cpu, &rom, &mut ram);
    assert!(cpu.flags.call);
    assert_eq!(cpu.sr, 0x15);
    assert_eq!(cpu.cs, 1);
    assert_eq!(cpu.pb, 0x3);
    assert_eq!(cpu.pa, 0x7);
    assert_eq!(cpu.ca, 0);

    load_op(&mut cpu, 0x0f);
    cpu.clock(&rom, &mut ram);
    assert!(!cpu.flags.call);
    assert_eq!(cpu.pc, 0x15);
    assert_eq!(cpu.ca, 1);
    assert_eq!(cpu.pa, 0x3);
}

#[test]
fn tcmiy_writes_constant_to_ram() {
    // TCMIY (0x60..=0x6f): CKM|YTP|CIN|AUTY — the reversed constant
    // goes to RAM at (X, Y) and Y increments.
    let rom = Rom::new();
    let mut ram = Ram::new();
    let mut cpu = Tms1100::new();
    cpu.x = 2;
    cpu.y = 5;
    // 0x6c: low nibble 0xc reversed is 0x3.
    load_op(&mut cpu, 0x6c);
    run_instruction(&mut cpu, &rom, &mut ram);
    assert_eq!(ram.read(RamAddr::new(2, 5)), 0x3);
    assert_eq!(cpu.y, 6);
}

#[test]
fn sbit_sets_all_when_selector_shifts_out() {
    // The bit-select group's shift runs past the nibble, so the CKI
    // latch reads 0 and SBIT sets every bit of the RAM nibble.
    let rom = Rom::new();
    let mut ram = Ram::new();
    let mut cpu = Tms1100::new();
    cpu.x = 1;
    cpu.y = 2;
    ram.write(RamAddr::new(1, 2), 0b0100);
    load_op(&mut cpu, 0x30);
    run_instruction(&mut cpu, &rom, &mut ram);
    assert_eq!(ram.read(RamAddr::new(1, 2)), 0xf);
}

#[test]
fn comx_and_comc_complement() {
    let rom = Rom::new();
    let mut ram = Ram::new();
    let mut cpu = Tms1100::new();
    cpu.x = 0b101;
    load_op(&mut cpu, 0x09);
    run_instruction(&mut cpu, &rom, &mut ram);
    assert_eq!(cpu.x, 0b010);
    load_op(&mut cpu, 0x0b);
    run_instruction(&mut cpu, &rom, &mut ram);
    assert_eq!(cpu.cb, 1);
}

#[test]
fn tdo_transfers_status_and_accumulator() {
    let rom = Rom::new();
    let mut ram = Ram::new();
    let mut cpu = Tms1100::new();
    cpu.a = 0b1010;
    cpu.flags.status = true;
    load_op(&mut cpu, 0x0a);
    run_instruction(&mut cpu, &rom, &mut ram);
    assert_eq!(cpu.o.0, 0b1010 | 1);
}

#[test]
fn reverse_nibble_table() {
    let expected = [0, 8, 4, 12, 2, 10, 6, 14, 1, 9, 5, 13, 3, 11, 7, 15];
    for v in 0..16u8 {
        assert_eq!(milton::tms1100::reverse_nibble(v), expected[v as usize]);
    }
}

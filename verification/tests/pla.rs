//! Exhaustive checks of the instruction-decode PLA tables.

use milton::pla::{Entry, Fixed, ATN, AUTA, AUTY, C8, CIN, CKM, CKN, CKP, FTN, MTP, NATN, NE, STO,
    STSL, YTP};

fn check(op: u8, mask: u16, fixed: Option<Fixed>) {
    assert_eq!(Entry::decode(op).0, mask, "micro mask of {op:#04x}");
    assert_eq!(Fixed::decode(op), fixed, "fixed decode of {op:#04x}");
}

fn check_range(lo: u8, hi: u8, mask: u16, fixed: Option<Fixed>) {
    for op in lo..=hi {
        check(op, mask, fixed);
    }
}

#[test]
fn mnea() {
    check(0x00, MTP | ATN | NE, None);
}

#[test]
fn alem() {
    check(0x01, MTP | NATN | CIN | C8, None);
}

#[test]
fn ynea() {
    check(0x02, YTP | ATN | NE | STSL, None);
}

#[test]
fn xma() {
    check(0x03, MTP | STO | AUTA, None);
}

#[test]
fn dyn_op() {
    check(0x04, YTP | FTN | C8 | AUTY, None);
}

#[test]
fn iyc() {
    check(0x05, YTP | CIN | C8 | AUTY, None);
}

#[test]
fn amaac() {
    check(0x06, ATN | MTP | C8 | AUTA, None);
}

#[test]
fn dman() {
    check(0x07, MTP | FTN | C8 | AUTA, None);
}

#[test]
fn tka() {
    check(0x08, CKP | AUTA, None);
}

#[test]
fn comx() {
    check(0x09, 0, Some(Fixed::Comx));
}

#[test]
fn tdo() {
    check(0x0a, 0, Some(Fixed::Tdo));
}

#[test]
fn comc() {
    check(0x0b, 0, Some(Fixed::Comc));
}

#[test]
fn rstr() {
    check(0x0c, 0, Some(Fixed::Rstr));
}

#[test]
fn setr() {
    check(0x0d, 0, Some(Fixed::Setr));
}

#[test]
fn knez() {
    check(0x0e, CKP | NE, None);
}

#[test]
fn retn() {
    check(0x0f, 0, Some(Fixed::Retn));
}

#[test]
fn ldp() {
    check_range(0x10, 0x1f, 0, Some(Fixed::Ldp));
}

#[test]
fn tay() {
    check(0x20, ATN | AUTY, None);
}

#[test]
fn tma() {
    check(0x21, MTP | AUTA, None);
}

#[test]
fn tmy() {
    check(0x22, MTP | AUTY, None);
}

#[test]
fn tya() {
    check(0x23, YTP | AUTA, None);
}

#[test]
fn tamdyn() {
    check(0x24, STO | YTP | FTN | C8 | AUTY, None);
}

#[test]
fn tamiyc() {
    check(0x25, STO | YTP | CIN | C8 | AUTY, None);
}

#[test]
fn tamza() {
    check(0x26, STO | AUTA, None);
}

#[test]
fn tam() {
    check(0x27, STO, None);
}

#[test]
fn ldx() {
    check_range(0x28, 0x2f, 0, Some(Fixed::Ldx));
}

#[test]
fn sbit() {
    check_range(0x30, 0x33, 0, Some(Fixed::Sbit));
}

#[test]
fn rbit() {
    check_range(0x34, 0x37, 0, Some(Fixed::Rbit));
}

#[test]
fn tbit1() {
    check_range(0x38, 0x3b, CKP | CKN | MTP | NE, None);
}

#[test]
fn saman() {
    check(0x3c, MTP | NATN | CIN | C8 | AUTA, None);
}

#[test]
fn cpaiz() {
    check(0x3d, NATN | CIN | C8 | AUTA, None);
}

#[test]
fn imac() {
    check(0x3e, MTP | CIN | C8 | AUTA, None);
}

#[test]
fn mnez() {
    check(0x3f, MTP | NE, None);
}

#[test]
fn tcy() {
    check_range(0x40, 0x4f, CKP | AUTY, None);
}

#[test]
fn ynec() {
    check_range(0x50, 0x5f, YTP | CKN | NE, None);
}

#[test]
fn tcmiy() {
    check_range(0x60, 0x6f, CKM | YTP | CIN | AUTY, None);
}

#[test]
fn ac1ac() {
    check_range(0x70, 0x7e, CKP | ATN | CIN | C8 | AUTA, None);
}

#[test]
fn cla() {
    check(0x7f, CKP | CIN | C8 | AUTA, None);
}

#[test]
fn br() {
    check_range(0x80, 0xbf, 0, Some(Fixed::Br));
}

#[test]
fn call() {
    check_range(0xc0, 0xff, 0, Some(Fixed::Call));
}

#[test]
fn fixed_rows_carry_empty_micro_masks() {
    for op in [0x09u8, 0x0a, 0x0b, 0x0c, 0x0d, 0x0f, 0x10, 0x1f, 0x28, 0x2f, 0x30, 0x37] {
        assert_eq!(Entry::decode(op).0, 0, "micro mask of {op:#04x}");
    }
}

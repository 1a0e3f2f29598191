//! Scenarios against the segmented ROM and RAM chips.

use milton::memory::{MemoryError, Ram, RamAddr, Rom, RomAddr};

#[test]
fn rom_addresses_assemble_and_mask() {
    let a = RomAddr::new(1, 0xf, 0x3f);
    assert_eq!(a.full(), 0x7ff);
    // Out-of-range segments wrap silently, as the address latches do.
    let b = RomAddr::new(2, 0x10, 0x40);
    assert_eq!(b.full(), 0);
    let c = RomAddr::new(3, 0x12, 0x41);
    assert_eq!(c.full(), 1 * 1024 + 2 * 64 + 1);
}

#[test]
fn rom_load_reads_back_and_zero_pads() {
    let mut rom = Rom::new();
    rom.copy(&[0xab, 0xcd, 0xef]).unwrap();
    assert_eq!(rom.read(RomAddr::new(0, 0, 0)), 0xab);
    assert_eq!(rom.read(RomAddr::new(0, 0, 1)), 0xcd);
    assert_eq!(rom.read(RomAddr::new(0, 0, 2)), 0xef);
    assert_eq!(rom.read(RomAddr::new(0, 0, 3)), 0);
    assert_eq!(rom.read(RomAddr::new(1, 0xf, 0x3f)), 0);
}

#[test]
fn rom_load_rejects_oversized_images() {
    let mut rom = Rom::new();
    let image = vec![1u8; 2049];
    assert_eq!(rom.copy(&image), Err(MemoryError::TooLarge));
    // The failed load left the chip untouched.
    assert_eq!(rom.read(RomAddr::new(0, 0, 0)), 0);
    let image = vec![1u8; 2048];
    assert_eq!(rom.copy(&image), Ok(()));
    assert_eq!(rom.read(RomAddr::new(1, 0xf, 0x3f)), 1);
}

#[test]
fn checksum_sums_every_byte_mod_65536() {
    let mut rom = Rom::new();
    assert_eq!(rom.checksum(), 0);
    rom.copy(&[1, 2, 3]).unwrap();
    assert_eq!(rom.checksum(), 6);
    let image = vec![0xffu8; 2048];
    rom.copy(&image).unwrap();
    // 2048 * 255 = 522240; 522240 mod 65536 = 63488.
    assert_eq!(rom.checksum(), 63488);
}

#[test]
fn checksum_moves_by_the_byte_delta() {
    // Changing one byte by some delta moves the checksum by exactly
    // that delta, modulo 2^16.
    let mut image = vec![0u8; 2048];
    image[100] = 17;
    let mut rom = Rom::new();
    rom.copy(&image).unwrap();
    let before = rom.checksum();
    image[100] = 40;
    rom.copy(&image).unwrap();
    assert_eq!(rom.checksum(), before.wrapping_add(40 - 17));

    // The same holds across a wrap-around of the 16-bit sum.
    let mut image = vec![0xffu8; 2048];
    let mut rom = Rom::new();
    rom.copy(&image).unwrap();
    let before = rom.checksum();
    image[0] = 0;
    rom.copy(&image).unwrap();
    assert_eq!(rom.checksum(), before.wrapping_sub(255));
}

#[test]
fn ram_write_then_read_returns_the_nibble() {
    let mut ram = Ram::new();
    for x in 0..8u8 {
        for y in 0..16u8 {
            let v = (x + y) % 16;
            ram.write(RamAddr::new(x, y), v);
            assert_eq!(ram.read(RamAddr::new(x, y)), v);
        }
    }
}

#[test]
fn ram_addresses_assemble_and_mask() {
    let a = RamAddr::new(0b101, 0b1100);
    assert_eq!(a.full(), 0b101_1100);
    // Out-of-range segments wrap.
    let b = RamAddr::new(9, 20);
    assert_eq!(b.full(), 1 * 16 + 4);
    let mut ram = Ram::new();
    ram.write(RamAddr::new(9, 20), 7);
    assert_eq!(ram.read(RamAddr::new(1, 4)), 7);
}

#[test]
fn ram_fills() {
    let mut ram = Ram::new();
    ram.write(RamAddr::new(3, 3), 9);
    ram.fill_zero();
    for x in 0..8u8 {
        for y in 0..16u8 {
            assert_eq!(ram.read(RamAddr::new(x, y)), 0);
        }
    }
    ram.fill_random();
    for x in 0..8u8 {
        for y in 0..16u8 {
            assert!(ram.read(RamAddr::new(x, y)) < 16);
        }
    }
}

//! Scenarios against the cartridge-specific wirings.

use milton::cartridge::{Cartridge, ChargeInfo, OutputPla, Settings};
use milton::tms1100::OutputO;

#[test]
fn default_settings_match_the_common_wiring() {
    let s = Settings::default();
    assert_eq!(s.charge_info, ChargeInfo { offset: 600, scale: 65 });
    assert_eq!(s.output_pla, OutputPla::Reversed);
    assert!(s.rotary_enabled);
    assert_eq!(OutputPla::default(), OutputPla::Reversed);
    assert_eq!(ChargeInfo::default(), ChargeInfo { offset: 600, scale: 65 });
}

#[test]
fn normal_pla_passes_the_low_nibble_through() {
    for o in 0..32u8 {
        assert_eq!(OutputPla::Normal.modify(OutputO(o)).value(), o % 16);
    }
}

#[test]
fn reversed_pla_bit_reverses_the_low_nibble() {
    assert_eq!(OutputPla::Reversed.modify(OutputO(0b00001)).value(), 0b1000);
    assert_eq!(OutputPla::Reversed.modify(OutputO(0b00010)).value(), 0b0100);
    assert_eq!(OutputPla::Reversed.modify(OutputO(0b01100)).value(), 0b0011);
    assert_eq!(OutputPla::Reversed.modify(OutputO(0b11111)).value(), 0b1111);
}

#[test]
fn a_new_cartridge_is_blank() {
    let cart = Cartridge::new();
    assert_eq!(cart.rom.checksum(), 0);
    assert_eq!(cart.ram.read(milton::memory::RamAddr::new(0, 0)), 0);
    assert!(cart.settings.rotary_enabled);
}

//! Scenarios against the keypad model and its column packing.

use milton::keypad::{key_at, pack_column, read_column, Api, Key};

/// A keypad holding exactly one key down.
struct OneKey {
    key: Key,
}

impl Api for OneKey {
    fn pressed(&self, key: Key) -> bool {
        key == self.key
    }

    fn get(&self, key: Key) -> bool {
        self.pressed(key)
    }
}

#[test]
fn pack_column_puts_row_0_on_the_high_bit() {
    assert_eq!(pack_column(false, false, false, false), 0b0000);
    assert_eq!(pack_column(true, false, false, false), 0b1000);
    assert_eq!(pack_column(false, true, false, false), 0b0100);
    assert_eq!(pack_column(false, false, true, false), 0b0010);
    assert_eq!(pack_column(false, false, false, true), 0b0001);
    assert_eq!(pack_column(true, true, true, true), 0b1111);
}

#[test]
fn read_column_reports_the_pressed_row() {
    for col in 0..3u8 {
        for row in 0..4u8 {
            let kb = OneKey { key: key_at(row, col) };
            assert_eq!(read_column(&kb, col), 8 >> row, "row {row} col {col}");
            // The key sits in one column only.
            for other in (0..3u8).filter(|c| *c != col) {
                assert_eq!(read_column(&kb, other), 0);
            }
        }
    }
}

#[test]
fn key_positions_round_trip() {
    for col in 0..3u8 {
        for row in 0..4u8 {
            let key = key_at(row, col);
            assert_eq!(key.pos(), (row as usize, col as usize));
        }
    }
}

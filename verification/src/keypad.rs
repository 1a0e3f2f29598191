//! The Microvision's 3x4 keypad.

use vstd::prelude::*;

verus! {

/// The location of a key on the 3x4 keypad, named column by row.
#[derive(Clone, Copy, Debug, PartialEq, Eq, Structural)]
pub enum Key {
    /// The key in column 0 on row 0.
    At0x0,
    /// The key in column 0 on row 1.
    At0x1,
    /// The key in column 0 on row 2.
    At0x2,
    /// The key in column 0 on row 3.
    At0x3,
    /// The key in column 1 on row 0.
    At1x0,
    /// The key in column 1 on row 1.
    At1x1,
    /// The key in column 1 on row 2.
    At1x2,
    /// The key in column 1 on row 3.
    At1x3,
    /// The key in column 2 on row 0.
    At2x0,
    /// The key in column 2 on row 1.
    At2x1,
    /// The key in column 2 on row 2.
    At2x2,
    /// The key in column 2 on row 3.
    At2x3,
}

/// The `(row, column)` position of a key.
pub open spec fn pos_of(key: Key) -> (int, int) {
    match key {
        Key::At0x0 => (0, 0),
        Key::At0x1 => (1, 0),
        Key::At0x2 => (2, 0),
        Key::At0x3 => (3, 0),
        Key::At1x0 => (0, 1),
        Key::At1x1 => (1, 1),
        Key::At1x2 => (2, 1),
        Key::At1x3 => (3, 1),
        Key::At2x0 => (0, 2),
        Key::At2x1 => (1, 2),
        Key::At2x2 => (2, 2),
        Key::At2x3 => (3, 2),
    }
}

/// The key sitting at the given row (0 to 3) and column (0 to 2);
/// positions outside the pad fold onto the last key.
pub open spec fn key_of(row: int, col: int) -> Key {
    if col == 0 {
        if row == 0 {
            Key::At0x0
        } else if row == 1 {
            Key::At0x1
        } else if row == 2 {
            Key::At0x2
        } else {
            Key::At0x3
        }
    } else if col == 1 {
        if row == 0 {
            Key::At1x0
        } else if row == 1 {
            Key::At1x1
        } else if row == 2 {
            Key::At1x2
        } else {
            Key::At1x3
        }
    } else {
        if row == 0 {
            Key::At2x0
        } else if row == 1 {
            Key::At2x1
        } else if row == 2 {
            Key::At2x2
        } else {
            Key::At2x3
        }
    }
}

/// The key found at the given row (0 to 3) and column (0 to 2).
pub fn key_at(row: u8, col: u8) -> (r: Key)
    requires
        row < 4,
        col < 3,
    ensures
        r == key_of(row as int, col as int),
        pos_of(r) == (row as int, col as int),
{
    match (row, col) {
        (0, 0) => Key::At0x0,
        (1, 0) => Key::At0x1,
        (2, 0) => Key::At0x2,
        (3, 0) => Key::At0x3,
        (0, 1) => Key::At1x0,
        (1, 1) => Key::At1x1,
        (2, 1) => Key::At1x2,
        (3, 1) => Key::At1x3,
        (0, 2) => Key::At2x0,
        (1, 2) => Key::At2x1,
        (2, 2) => Key::At2x2,
        _ => Key::At2x3,
    }
}

impl Key {
    /// The row and column offsets of this key, as `(row, col)`.
    pub fn pos(&self) -> (r: (usize, usize))
        ensures
            (r.0 as int, r.1 as int) == pos_of(*self),
            r.0 < 4,
            r.1 < 3,
    {
        match self {
            Key::At0x0 => (0, 0),
            Key::At0x1 => (1, 0),
            Key::At0x2 => (2, 0),
            Key::At0x3 => (3, 0),
            Key::At1x0 => (0, 1),
            Key::At1x1 => (1, 1),
            Key::At1x2 => (2, 1),
            Key::At1x3 => (3, 1),
            Key::At2x0 => (0, 2),
            Key::At2x1 => (1, 2),
            Key::At2x2 => (2, 2),
            Key::At2x3 => (3, 2),
        }
    }
}

/// An abstract (frontend agnostic) 3x4 keypad, implemented by the host.
pub trait Api {
    /// The key state this keypad stands ready to report; `get` returns
    /// exactly this.
    spec fn pressed(&self, key: Key) -> bool;

    /// The current state of the given key: true while pressed.
    fn get(&self, key: Key) -> (r: bool)
        ensures
            r == self.pressed(key),
    ;
}

/// The 4-bit value a column's four key states pack into: row 0 on the
/// high bit (K8) down to row 3 on the low bit (K1).
pub open spec fn packed_column(row0: bool, row1: bool, row2: bool, row3: bool) -> u8 {
    (((if row0 {
        8int
    } else {
        0int
    }) + (if row1 {
        4int
    } else {
        0int
    }) + (if row2 {
        2int
    } else {
        0int
    }) + (if row3 {
        1int
    } else {
        0int
    })) as u8)
}

/// The nibble that keypad column `col` (0 to 2) presents to the K
/// input: its four reported key states, packed row 0 first.
pub open spec fn column_bits<K: Api>(kb: K, col: u8) -> u8 {
    packed_column(
        kb.pressed(key_of(0, col as int)),
        kb.pressed(key_of(1, col as int)),
        kb.pressed(key_of(2, col as int)),
        kb.pressed(key_of(3, col as int)),
    )
}

/// Pack four key states into the 4-bit value the K input sees: row 0
/// on the high bit (K8) down to row 3 on the low bit (K1).
pub fn pack_column(row0: bool, row1: bool, row2: bool, row3: bool) -> (r: u8)
    ensures
        r == packed_column(row0, row1, row2, row3),
        r < 16,
{
    let mut r: u8 = 0;
    if row0 {
        r += 8;
    }
    if row1 {
        r += 4;
    }
    if row2 {
        r += 2;
    }
    if row3 {
        r += 1;
    }
    r
}

/// Read one keypad column as the 4-bit value the K input sees: the
/// column's four reported key states, row 0 on the high bit (K8) down
/// to row 3 on the low bit (K1).
pub fn read_column<K: Api>(kb: &K, col: u8) -> (r: u8)
    requires
        col < 3,
    ensures
        r == column_bits(*kb, col),
        r < 16,
{
    pack_column(
        kb.get(key_at(0, col)),
        kb.get(key_at(1, col)),
        kb.get(key_at(2, col)),
        kb.get(key_at(3, col)),
    )
}

} // verus!

//! The Hughes 0488 LCD driver and its 16x16 display output.
//!
//! The driver shifts nibbles into eight internal address latches; a
//! latch pulse while the data clock is high transfers the first four
//! latches to the 16 row lines and the last four to the 16 column
//! lines, lighting every pixel whose row and column bits are both set.

use crate::bits::bit16;
use crate::common::Line;
use vstd::prelude::*;
use vstd::seq_lib::lemma_seq_contains_after_push;

verus! {

/// The latch pulse input line: when high together with the data clock,
/// the latches transfer to the row and column outputs; it also resets
/// the latch counter.
pub type LatchPulse = Line;

/// The not-data-clock input line: while low, the data input is written
/// to the latch under the counter; its rising edge advances the counter.
pub type NotDataClock = Line;

/// The 16 row output connections of the Hughes 0488.
#[derive(Clone, Copy, Debug, PartialEq, Eq, Structural)]
pub struct Row(pub u16);

impl Row {
    /// The raw 16-bit value on the row lines.
    pub fn value(&self) -> (r: u16)
        ensures
            r == self.0,
    {
        self.0
    }
}

/// The 16 column output connections of the Hughes 0488.
#[derive(Clone, Copy, Debug, PartialEq, Eq, Structural)]
pub struct Column(pub u16);

impl Column {
    /// The raw 16-bit value on the column lines.
    pub fn value(&self) -> (r: u16)
        ensures
            r == self.0,
    {
        self.0
    }
}

/// The 4 data input lines D[0-3] of the driver.
#[derive(Clone, Copy, Debug, PartialEq, Eq, Structural)]
pub struct DataLine(pub u8);

impl DataLine {
    /// The raw 4-bit value on the data lines.
    pub fn value(&self) -> (r: u8)
        ensures
            r == self.0,
    {
        self.0
    }
}

/// The eight internal 4-bit address latches of the driver and the
/// counter that selects the next one to load.
#[derive(Clone, Debug)]
pub struct Latches {
    /// The latched nibbles; exactly eight of them.
    pub data: Vec<u8>,
    /// The 3-bit index of the latch that loads next.
    pub counter: u8,
}

/// An abstract (frontend agnostic) 16x16 LCD display.
pub trait Api {
    /// Enable the pixel at the given coordinates; `(0, 0)` is the upper
    /// left corner of the display. Pixels decay to off on the frontend's
    /// side; the driver never turns one off.
    fn enable_pixel(&mut self, x: usize, y: usize)
        requires
            x < 16,
            y < 16,
    ;
}

/// The latch counter after the edge detector ran: a rising edge of the
/// not-data-clock advances it, wrapping at eight.
pub open spec fn lcd_counter_mid(s: Hughes0488, not_clock: bool) -> u8 {
    if !s.not_clock.0 && not_clock {
        (((s.latches.counter + 1) % 8) as u8)
    } else {
        s.latches.counter
    }
}

/// The latch contents after this tick: while the data clock is low the
/// latch under the (just advanced) counter loads the data input.
pub open spec fn lcd_latches_after(s: Hughes0488, data: u8, not_clock: bool) -> Seq<u8> {
    if !not_clock {
        s.latches.data@.update(lcd_counter_mid(s, not_clock) as int, data)
    } else {
        s.latches.data@
    }
}

/// Four nibbles assembled big-endian into a 16-bit output line.
pub open spec fn assemble(a: u8, b: u8, c: u8, d: u8) -> u16 {
    ((a * 4096 + b * 256 + c * 16 + d) as u16)
}

/// Whether this tick transfers the latches to the row and column lines:
/// the latch pulse and the data clock are both high.
pub open spec fn lcd_transfer(pulse: bool, not_clock: bool) -> bool {
    pulse && not_clock
}

/// The row lines after this tick.
pub open spec fn lcd_row_after(s: Hughes0488, data: u8, pulse: bool, not_clock: bool) -> u16 {
    let lat = lcd_latches_after(s, data, not_clock);
    if lcd_transfer(pulse, not_clock) {
        assemble(lat[0], lat[1], lat[2], lat[3])
    } else {
        s.row.0
    }
}

/// The column lines after this tick.
pub open spec fn lcd_col_after(s: Hughes0488, data: u8, pulse: bool, not_clock: bool) -> u16 {
    let lat = lcd_latches_after(s, data, not_clock);
    if lcd_transfer(pulse, not_clock) {
        assemble(lat[4], lat[5], lat[6], lat[7])
    } else {
        s.col.0
    }
}

/// The latch counter after this tick: a high latch pulse resets it.
pub open spec fn lcd_counter_after(s: Hughes0488, pulse: bool, not_clock: bool) -> u8 {
    if pulse {
        0
    } else {
        lcd_counter_mid(s, not_clock)
    }
}

/// No bit of a zero line is set.
proof fn lemma_bit16_zero(n: u16)
    by (bit_vector)
    ensures
        !((0u16 >> n) & 1 == 1),
{
}

/// An emulated Hughes 0488 LCD driver.
#[derive(Clone, Debug)]
pub struct Hughes0488 {
    /// The 4 data input lines D[0-3].
    pub data: DataLine,
    /// The latch pulse input line.
    pub pulse: LatchPulse,
    /// The not-data-clock input line.
    pub not_clock: NotDataClock,
    /// The eight internal address latches.
    pub latches: Latches,
    /// The 16 row output connections.
    pub row: Row,
    /// The 16 column output connections.
    pub col: Column,
}

impl Hughes0488 {
    /// The latches hold exactly eight nibbles and the counter stays in
    /// range.
    pub open spec fn wf(&self) -> bool {
        &&& self.latches.data@.len() == 8
        &&& forall|i: int| 0 <= i < 8 ==> self.latches.data@[i] < 16
        &&& self.latches.counter < 8
        &&& self.data.0 < 16
    }

    /// A driver with cleared latches, counters and outputs.
    pub fn new() -> (r: Hughes0488)
        ensures
            r.wf(),
            r.pulse.0 == false,
            r.not_clock.0 == false,
            r.latches.counter == 0,
            forall|i: int| 0 <= i < 8 ==> r.latches.data@[i] == 0,
            r.row.0 == 0,
            r.col.0 == 0,
    {
        let mut data: Vec<u8> = Vec::new();
        let mut i: usize = 0;
        while i < 8
            invariant
                i <= 8,
                data@.len() == i,
                forall|j: int| 0 <= j < i ==> data@[j] == 0,
            decreases 8 - i,
        {
            data.push(0);
            i += 1;
        }
        Hughes0488 {
            data: DataLine(0),
            pulse: Line::new(false),
            not_clock: Line::new(false),
            latches: Latches { data, counter: 0 },
            row: Row(0),
            col: Column(0),
        }
    }

    /// Return this driver to its power-on state.
    pub fn reset(&mut self)
        ensures
            final(self).wf(),
            final(self).pulse.0 == false,
            final(self).not_clock.0 == false,
            final(self).latches.counter == 0,
            forall|i: int| 0 <= i < 8 ==> final(self).latches.data@[i] == 0,
            final(self).row.0 == 0,
            final(self).col.0 == 0,
    {
        *self = Hughes0488::new();
    }

    /// Run one tick of the driver and collect the pixels it lights.
    ///
    /// On a transfer tick (latch pulse and data clock both high) the
    /// returned pixels cover exactly the set of coordinates whose row
    /// bit and column bit are both set in the new outputs; on any other
    /// tick nothing is lit.
    pub fn advance(&mut self, data: DataLine, pulse: LatchPulse, not_clock: NotDataClock) -> (px:
        Vec<(usize, usize)>)
        requires
            old(self).wf(),
            data.0 < 16,
        ensures
            final(self).wf(),
            final(self).data == old(self).data,
            final(self).pulse == pulse,
            final(self).not_clock == not_clock,
            final(self).latches.data@ == lcd_latches_after(*old(self), data.0, not_clock.0),
            final(self).latches.counter == lcd_counter_after(*old(self), pulse.0, not_clock.0),
            final(self).row.0 == lcd_row_after(*old(self), data.0, pulse.0, not_clock.0),
            final(self).col.0 == lcd_col_after(*old(self), data.0, pulse.0, not_clock.0),
            forall|x: usize, y: usize|
                x < 16 && y < 16 ==> (px@.contains((x, y)) <==> lcd_transfer(pulse.0, not_clock.0)
                    && bit16(final(self).row.0, y as u16) && bit16(final(self).col.0, x as u16)),
            forall|i: int| 0 <= i < px@.len() ==> (#[trigger] px@[i]).0 < 16 && px@[i].1 < 16,
            forall|i: int, j: int| 0 <= i < j < px@.len() ==> px@[i] != px@[j],
    {
        broadcast use lemma_seq_contains_after_push;

        let mut px: Vec<(usize, usize)> = Vec::new();
        if self.not_clock.update_rising(not_clock) {
            self.latches.counter = (self.latches.counter + 1) % 8;
        }
        self.pulse = pulse;
        if !self.not_clock.value() {
            let c = self.latches.counter;
            self.latches.data.set(c as usize, data.0);
        }
        if self.pulse.value() && self.not_clock.value() {
            let l0 = self.latches.data[0] as u16;
            let l1 = self.latches.data[1] as u16;
            let l2 = self.latches.data[2] as u16;
            let l3 = self.latches.data[3] as u16;
            let l4 = self.latches.data[4] as u16;
            let l5 = self.latches.data[5] as u16;
            let l6 = self.latches.data[6] as u16;
            let l7 = self.latches.data[7] as u16;
            self.row.0 = l0 * 4096 + l1 * 256 + l2 * 16 + l3;
            self.col.0 = l4 * 4096 + l5 * 256 + l6 * 16 + l7;
            let row = self.row.0;
            let col = self.col.0;
            if row != 0 && col != 0 {
                let mut y: usize = 0;
                while y < 16
                    invariant
                        y <= 16,
                        forall|a: usize, b: usize|
                            a < 16 && b < 16 ==> (px@.contains((a, b)) <==> b < y && bit16(
                                row,
                                b as u16,
                            ) && bit16(col, a as u16)),
                        forall|i: int|
                            0 <= i < px@.len() ==> (#[trigger] px@[i]).0 < 16 && px@[i].1 < 16,
                        forall|i: int| 0 <= i < px@.len() ==> (#[trigger] px@[i]).1 < y,
                        forall|i: int, j: int| 0 <= i < j < px@.len() ==> px@[i] != px@[j],
                    decreases 16 - y,
                {
                    if (row >> (y as u16)) & 1 == 1 {
                        let mut x: usize = 0;
                        while x < 16
                            invariant
                                y < 16,
                                x <= 16,
                                bit16(row, y as u16),
                                forall|a: usize, b: usize|
                                    a < 16 && b < 16 ==> (px@.contains((a, b)) <==> (b < y
                                        && bit16(row, b as u16) && bit16(col, a as u16)) || (b == y
                                        && a < x && bit16(col, a as u16))),
                                forall|i: int|
                                    0 <= i < px@.len() ==> (#[trigger] px@[i]).0 < 16 && px@[i].1
                                        < 16,
                                forall|i: int|
                                    0 <= i < px@.len() ==> ((#[trigger] px@[i]).1 < y || (px@[i].1
                                        == y && px@[i].0 < x)),
                                forall|i: int, j: int|
                                    0 <= i < j < px@.len() ==> px@[i] != px@[j],
                            decreases 16 - x,
                        {
                            if (col >> (x as u16)) & 1 == 1 {
                                let ghost pre = px@;
                                px.push((x, y));
                                proof {
                                    assert forall|a: usize, b: usize| a < 16 && b < 16 implies (
                                    #[trigger] px@.contains((a, b)) <==> pre.contains((a, b)) || (
                                    a, b) == (x, y)) by {
                                        lemma_seq_contains_after_push(pre, (x, y), (a, b));
                                    }
                                }
                            }
                            x += 1;
                        }
                    }
                    y += 1;
                }
            } else {
                proof {
                    if row == 0 {
                        assert forall|b: u16| !(#[trigger] bit16(row, b)) by {
                            lemma_bit16_zero(b);
                        }
                    } else {
                        assert forall|a: u16| !(#[trigger] bit16(col, a)) by {
                            lemma_bit16_zero(a);
                        }
                    }
                }
            }
        }
        if self.pulse.value() {
            self.latches.counter = 0;
        }
        px
    }

    /// Run one tick of the driver against a display frontend, lighting
    /// each covered pixel through it.
    pub fn clock<A: Api>(
        &mut self,
        data: DataLine,
        pulse: LatchPulse,
        not_clock: NotDataClock,
        frontend: &mut A,
    )
        requires
            old(self).wf(),
            data.0 < 16,
        ensures
            final(self).wf(),
            final(self).data == old(self).data,
            final(self).pulse == pulse,
            final(self).not_clock == not_clock,
            final(self).latches.data@ == lcd_latches_after(*old(self), data.0, not_clock.0),
            final(self).latches.counter == lcd_counter_after(*old(self), pulse.0, not_clock.0),
            final(self).row.0 == lcd_row_after(*old(self), data.0, pulse.0, not_clock.0),
            final(self).col.0 == lcd_col_after(*old(self), data.0, pulse.0, not_clock.0),
    {
        let px = self.advance(data, pulse, not_clock);
        let mut i: usize = 0;
        while i < px.len()
            invariant
                forall|j: int| 0 <= j < px@.len() ==> (#[trigger] px@[j]).0 < 16 && px@[j].1 < 16,
            decreases px@.len() - i,
        {
            let (x, y) = px[i];
            frontend.enable_pixel(x, y);
            i += 1;
        }
    }
}

} // verus!

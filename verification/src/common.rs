//! Project-wide primitives: 1-bit signal lines and microsecond timestamps.

use vstd::prelude::*;

verus! {

/// A 1-bit (boolean) input/output signal line.
///
/// Chips communicate through such lines; a line remembers its previous
/// level so that rising edges can be detected.
#[derive(Clone, Copy, Debug, PartialEq, Eq, Structural)]
pub struct Line(pub bool);

impl Line {
    /// Wrap a raw bit as a signal line.
    pub fn new(v: bool) -> (r: Line)
        ensures
            r.0 == v,
    {
        Line(v)
    }

    /// The current level of this line.
    pub fn value(&self) -> (r: bool)
        ensures
            r == self.0,
    {
        self.0
    }

    /// Latch the level of another line and report whether a rising edge
    /// (a `0 -> 1` transition) occurred.
    pub fn update_rising(&mut self, other: Line) -> (rising: bool)
        ensures
            final(self).0 == other.0,
            rising == (!old(self).0 && other.0),
    {
        let rising = !self.0 && other.0;
        self.0 = other.0;
        rising
    }
}

/// A point in (or span of) simulated time, measured in microseconds.
#[derive(Clone, Copy, Debug, PartialEq, Eq, Structural)]
pub struct Ms(pub usize);

impl Ms {
    /// Wrap a raw microsecond count.
    pub fn new(v: usize) -> (r: Ms)
        ensures
            r.0 == v,
    {
        Ms(v)
    }

    /// The raw number of microseconds.
    pub fn value(&self) -> (r: usize)
        ensures
            r == self.0,
    {
        self.0
    }

    /// Whether `self` comes no later than `other`.
    pub fn is_before(self, other: Ms) -> (r: bool)
        ensures
            r == (self.0 <= other.0),
    {
        self.0 <= other.0
    }

    /// The number of microseconds between `self` and a later time `end`.
    pub fn elapsed(self, end: Ms) -> (r: Ms)
        requires
            self.0 <= end.0,
        ensures
            r.0 == end.0 - self.0,
    {
        Ms(end.0 - self.0)
    }

    /// Advance this time by `amount` microseconds.
    pub fn offset(&mut self, amount: Ms)
        requires
            old(self).0 + amount.0 <= usize::MAX,
        ensures
            final(self).0 == old(self).0 + amount.0,
    {
        self.0 += amount.0;
    }
}

} // verus!

//! The Microvision's Piezo buzzer.
//!
//! The buzzer hardware counts rising edges of its pulse line and keeps
//! the times of the first and the last one; once per frame the pitch is
//! extracted from the pulse count and that interval.

use crate::common::{Line, Ms};
use vstd::prelude::*;

verus! {

/// The buzzer pulse line, wired to bit 0 of the R output.
pub type BuzzerPulse = Line;

/// What a `sync` tells the sound frontend to do.
#[derive(Clone, Copy, Debug, PartialEq, Eq, Structural)]
pub enum Command {
    /// Play at the given pitch, in integer hertz.
    Enable(usize),
    /// Stop playing.
    Disable,
}

/// An abstract (frontend agnostic) Piezo buzzer.
pub trait Api {
    /// Start (or keep) playing sound at the given pitch in hertz.
    fn enable(&mut self, pitch: usize);

    /// Stop playing sound.
    fn disable(&mut self);
}

/// An emulated Piezo buzzer.
#[derive(Clone, Copy, Debug, PartialEq, Eq, Structural)]
pub struct Buzzer {
    /// The previous level of the pulse line, for edge detection.
    pub pulse: BuzzerPulse,
    /// How many rising edges arrived since the last `sync`.
    pub pulse_times: usize,
    /// The time of the first rising edge of the frame.
    pub start: Ms,
    /// The time of the most recent later rising edge.
    pub end: Ms,
}

/// The buzzer state after one tick: a rising edge of the pulse line
/// records the current time (as the start on the first edge, as the end
/// on every later one) and bumps the edge count.
pub open spec fn buzzer_step(b: Buzzer, pulse: bool, now: Ms) -> Buzzer {
    if !b.pulse.0 && pulse {
        Buzzer {
            pulse: Line(pulse),
            pulse_times: (b.pulse_times + 1) as usize,
            start: if b.pulse_times == 0 { now } else { b.start },
            end: if b.pulse_times == 0 { b.end } else { now },
        }
    } else {
        Buzzer { pulse: Line(pulse), ..b }
    }
}

/// The pitch, in hertz, that the recorded pulses imply: one less than
/// the edge count, scaled to a second, over the recorded interval.
pub open spec fn pitch_of(b: Buzzer) -> int {
    (b.pulse_times - 1) * 1_000_000 / (b.end.0 - b.start.0)
}

/// What the buzzer tells the frontend at a `sync`: an audible pitch
/// needs at least two recorded edges, a positive interval, and a pitch
/// from 50 up to (excluding) 2400 hertz; anything else is silence. In
/// particular a zero-length interval counts as outside the audible
/// range, never as a fault.
pub open spec fn command_of(b: Buzzer) -> Command {
    if b.pulse_times >= 2 && b.end.0 > b.start.0 && 50 <= pitch_of(b) < 2400 {
        Command::Enable(pitch_of(b) as usize)
    } else {
        Command::Disable
    }
}

impl Buzzer {
    /// A silent buzzer with no recorded pulses.
    pub fn new() -> (r: Buzzer)
        ensures
            r == (Buzzer { pulse: Line(false), pulse_times: 0, start: Ms(0), end: Ms(0) }),
    {
        Buzzer { pulse: Line::new(false), pulse_times: 0, start: Ms::new(0), end: Ms::new(0) }
    }

    /// Return this buzzer to its power-on state.
    pub fn reset(&mut self)
        ensures
            *final(self) == (Buzzer { pulse: Line(false), pulse_times: 0, start: Ms(0), end: Ms(
                0,
            ) }),
    {
        *self = Buzzer::new();
    }

    /// Run one tick of the edge detector against the pulse line.
    pub fn clock(&mut self, pulse: BuzzerPulse, current_time: Ms)
        requires
            old(self).pulse_times < usize::MAX,
        ensures
            *final(self) == buzzer_step(*old(self), pulse.0, current_time),
    {
        if self.pulse.update_rising(pulse) {
            if self.pulse_times == 0 {
                self.start = current_time;
            } else {
                self.end = current_time;
            }
            self.pulse_times += 1;
        }
    }

    /// The command that this buzzer state sends at a `sync`. Fewer than
    /// two recorded pulses always yield `Disable`.
    pub fn command(&self) -> (r: Command)
        ensures
            r == command_of(*self),
            self.pulse_times < 2 ==> r is Disable,
    {
        if self.pulse_times >= 2 && self.end.value() > self.start.value() {
            let period = (self.end.value() - self.start.value()) as u128;
            let pitch = (self.pulse_times - 1) as u128 * 1_000_000 / period;
            if 50 <= pitch && pitch < 2400 {
                Command::Enable(pitch as usize)
            } else {
                Command::Disable
            }
        } else {
            Command::Disable
        }
    }

    /// Emit this frame's command to the sound frontend and clear the
    /// pulse count; the recorded times stay behind.
    pub fn sync<A: Api>(&mut self, frontend: &mut A)
        ensures
            final(self).pulse_times == 0,
            final(self).pulse == old(self).pulse,
            final(self).start == old(self).start,
            final(self).end == old(self).end,
    {
        match self.command() {
            Command::Enable(pitch) => frontend.enable(pitch),
            Command::Disable => frontend.disable(),
        }
        self.pulse_times = 0;
    }
}

} // verus!

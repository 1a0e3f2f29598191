//! Scenarios against the Piezo buzzer.

use milton::buzzer::{Api, Buzzer, Command};
use milton::common::{Line, Ms};

/// A frontend that remembers the most recent command.
struct Recorder {
    last: Option<Command>,
}

impl Api for Recorder {
    fn enable(&mut self, pitch: usize) {
        self.last = Some(Command::Enable(pitch));
    }

    fn disable(&mut self) {
        self.last = Some(Command::Disable);
    }
}

/// Send one rising edge at the given time, then drop the line again.
fn pulse_at(buzzer: &mut Buzzer, t: usize) {
    buzzer.clock(Line::new(true), Ms::new(t));
    buzzer.clock(Line::new(false), Ms::new(t));
}

#[test]
fn four_pulses_give_a_kilohertz() {
    // Pulses at 100, 1100, 2100 and 3100 microseconds: three intervals
    // over 3000 microseconds give (4-1) * 1_000_000 / 3000 = 1000 Hz.
    let mut buzzer = Buzzer::new();
    pulse_at(&mut buzzer, 100);
    pulse_at(&mut buzzer, 1100);
    pulse_at(&mut buzzer, 2100);
    pulse_at(&mut buzzer, 3100);
    assert_eq!(buzzer.pulse_times, 4);
    assert_eq!(buzzer.start.value(), 100);
    assert_eq!(buzzer.end.value(), 3100);
    let mut sink = Recorder { last: None };
    buzzer.sync(&mut sink);
    assert_eq!(sink.last, Some(Command::Enable(1000)));
    assert_eq!(buzzer.pulse_times, 0);
}

#[test]
fn fewer_than_two_pulses_disable() {
    let mut buzzer = Buzzer::new();
    let mut sink = Recorder { last: None };
    buzzer.sync(&mut sink);
    assert_eq!(sink.last, Some(Command::Disable));

    pulse_at(&mut buzzer, 500);
    assert_eq!(buzzer.pulse_times, 1);
    let mut sink = Recorder { last: None };
    buzzer.sync(&mut sink);
    assert_eq!(sink.last, Some(Command::Disable));
}

#[test]
fn zero_period_counts_as_inaudible() {
    // Two edges recorded at the same instant: the period is zero, which
    // disables the buzzer instead of faulting.
    let mut buzzer = Buzzer::new();
    pulse_at(&mut buzzer, 700);
    pulse_at(&mut buzzer, 700);
    assert_eq!(buzzer.pulse_times, 2);
    let mut sink = Recorder { last: None };
    buzzer.sync(&mut sink);
    assert_eq!(sink.last, Some(Command::Disable));
}

#[test]
fn pitch_outside_the_audible_window_disables() {
    // Two pulses 100 seconds apart: far below 50 Hz.
    let mut buzzer = Buzzer::new();
    pulse_at(&mut buzzer, 0);
    pulse_at(&mut buzzer, 100_000_000);
    let mut sink = Recorder { last: None };
    buzzer.sync(&mut sink);
    assert_eq!(sink.last, Some(Command::Disable));

    // Two pulses 100 microseconds apart: 10 kHz, above the window.
    let mut buzzer = Buzzer::new();
    pulse_at(&mut buzzer, 0);
    pulse_at(&mut buzzer, 100);
    let mut sink = Recorder { last: None };
    buzzer.sync(&mut sink);
    assert_eq!(sink.last, Some(Command::Disable));
}

#[test]
fn boundary_pitches() {
    // 50 Hz is audible; 2400 Hz is not (the window is half-open).
    let mut buzzer = Buzzer::new();
    pulse_at(&mut buzzer, 0);
    pulse_at(&mut buzzer, 20_000);
    let mut sink = Recorder { last: None };
    buzzer.sync(&mut sink);
    assert_eq!(sink.last, Some(Command::Enable(50)));

    let mut buzzer = Buzzer::new();
    pulse_at(&mut buzzer, 0);
    // (2-1) * 1_000_000 / 417 = 2398 Hz, just inside.
    pulse_at(&mut buzzer, 417);
    let mut sink = Recorder { last: None };
    buzzer.sync(&mut sink);
    assert_eq!(sink.last, Some(Command::Enable(2398)));

    let mut buzzer = Buzzer::new();
    pulse_at(&mut buzzer, 0);
    // (2-1) * 1_000_000 / 416 = 2403 Hz, just outside.
    pulse_at(&mut buzzer, 416);
    let mut sink = Recorder { last: None };
    buzzer.sync(&mut sink);
    assert_eq!(sink.last, Some(Command::Disable));
}

#[test]
fn a_held_line_is_a_single_edge() {
    let mut buzzer = Buzzer::new();
    buzzer.clock(Line::new(true), Ms::new(10));
    buzzer.clock(Line::new(true), Ms::new(20));
    buzzer.clock(Line::new(true), Ms::new(30));
    assert_eq!(buzzer.pulse_times, 1);
    assert_eq!(buzzer.start.value(), 10);
}

#[test]
fn sync_keeps_the_recorded_times() {
    let mut buzzer = Buzzer::new();
    pulse_at(&mut buzzer, 100);
    pulse_at(&mut buzzer, 200);
    let mut sink = Recorder { last: None };
    buzzer.sync(&mut sink);
    assert_eq!(buzzer.start.value(), 100);
    assert_eq!(buzzer.end.value(), 200);
}

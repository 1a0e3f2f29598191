//! Emulation core for the Milton Bradley Microvision handheld console.
//!
//! The console wires a TMS1100 micro-processor to a Hughes 0488 LCD
//! driver, a Piezo buzzer, a rotary controller and a 3x4 keypad. A host
//! calls [`Console::clock`] once per 10 microseconds of simulated time
//! and [`Console::sync`] once per rendered frame.

use vstd::prelude::*;

pub mod bits;
pub mod buzzer;
pub mod cartridge;
pub mod common;
pub mod display;
pub mod keypad;
pub mod memory;
pub mod pla;
pub mod rotary;
pub mod tms1100;

use crate::bits::{bit16, or_nib};
use crate::buzzer::{buzzer_step, Buzzer};
use crate::cartridge::{pla_data, Cartridge};
use crate::common::{Line, Ms};
use crate::display::{lcd_col_after, lcd_counter_after, lcd_latches_after, lcd_row_after,
    Hughes0488};
use crate::keypad::{column_bits, read_column};
use crate::rotary::{charge_end_time, Rotary};
use crate::tms1100::{tms_ram_after, tms_step, InputK, Tms1100};

verus! {

/// An emulated Microvision handheld.
#[derive(Clone, Debug)]
pub struct Console {
    /// The TMS1100 micro-processor on the cartridge.
    pub cpu: Tms1100,
    /// The Hughes 0488 LCD driver.
    pub driver: Hughes0488,
    /// The Piezo buzzer.
    pub buzzer: Buzzer,
    /// The rotary controller.
    pub rotary: Rotary,
    /// The simulated time elapsed so far, in microseconds.
    pub elapsed: Ms,
}

/// The processor state after the sub-cycle that this tick runs (before
/// the tick rebuilds the K input).
pub open spec fn cpu_after(c: Console, cart: Cartridge) -> Tms1100 {
    tms_step(c.cpu, cart.rom@, cart.ram@)
}

/// The data nibble this tick presents to the LCD driver: the new O
/// output through the cartridge's output PLA.
pub open spec fn lcd_data_in(c: Console, cart: Cartridge) -> u8 {
    pla_data(cart.settings.output_pla, cpu_after(c, cart).o.0)
}

/// The LCD latch pulse this tick: bit 6 of the new R output.
pub open spec fn lcd_pulse_in(c: Console, cart: Cartridge) -> bool {
    bit16(cpu_after(c, cart).r.0, 6)
}

/// The LCD not-data-clock this tick: bit 7 of the new R output.
pub open spec fn lcd_clock_in(c: Console, cart: Cartridge) -> bool {
    bit16(cpu_after(c, cart).r.0, 7)
}

/// The K input that a tick rebuilds from a keypad and the fresh R
/// output: the packed nibbles of the keypad columns selected by R bits
/// 10, 9 and 8 ORed together; when the rotary is enabled, the keypad's
/// high bit is masked off and the K8 bit reads `timed_out` instead.
pub open spec fn k_input<K: keypad::Api>(
    kb: K,
    r: u16,
    rotary_enabled: bool,
    timed_out: bool,
) -> u8 {
    let k1 = if bit16(r, 10) { 0u8 | column_bits(kb, 0) } else { 0u8 };
    let k2 = if bit16(r, 9) { k1 | column_bits(kb, 1) } else { k1 };
    let k3 = if bit16(r, 8) { k2 | column_bits(kb, 2) } else { k2 };
    if rotary_enabled {
        ((k3 % 8 + if timed_out { 8int } else { 0int }) as u8)
    } else {
        k3
    }
}

impl Console {
    /// All chips hold well-formed state.
    pub open spec fn wf(&self) -> bool {
        self.cpu.wf() && self.driver.wf()
    }

    /// A console fresh from power-on.
    pub fn new() -> (r: Console)
        ensures
            r.wf(),
            r.cpu == Tms1100::initial(),
            r.buzzer == (Buzzer { pulse: Line(false), pulse_times: 0, start: Ms(0), end: Ms(0) }),
            r.rotary == (Rotary { charge_end: Ms(0), charge: Line(false) }),
            r.elapsed == Ms(0),
    {
        Console {
            cpu: Tms1100::new(),
            driver: Hughes0488::new(),
            buzzer: Buzzer::new(),
            rotary: Rotary::new(),
            elapsed: Ms::new(0),
        }
    }

    /// Return every chip to its power-on state, as when a new ROM is
    /// loaded. (A real Microvision has no reset line; power does this.)
    pub fn reset(&mut self)
        ensures
            final(self).wf(),
            final(self).cpu == Tms1100::initial(),
            final(self).buzzer == (Buzzer { pulse: Line(false), pulse_times: 0, start: Ms(0), end: Ms(0) }),
            final(self).rotary == (Rotary { charge_end: Ms(0), charge: Line(false) }),
            final(self).elapsed == Ms(0),
    {
        self.cpu.reset();
        self.driver.reset();
        self.buzzer.reset();
        self.rotary.reset();
        self.elapsed = Ms::new(0);
    }

    /// Run the console for one tick: advance the simulated time by the
    /// 10 microseconds between ticks at 100 kHz, run one CPU sub-cycle
    /// against the cartridge, rebuild the K input from the keypad and
    /// the rotary charge state, and drive the LCD, buzzer and rotary
    /// from the fresh R and O outputs.
    ///
    /// The contract pins every effect: the ROM never changes, the RAM
    /// and every chip register follow the sub-cycle's transition, and
    /// the K input equals `k_input` — the packed nibbles of the key
    /// states the keypad reports for the selected columns, with the K8
    /// bit reading exactly "the charge line was high and the charge has
    /// timed out" when the rotary is enabled.
    pub fn clock<L: display::Api, K: keypad::Api, R: rotary::Api>(
        &mut self,
        cart: &mut Cartridge,
        display: &mut L,
        keypad: &K,
        paddle: &R,
    )
        requires
            old(self).wf(),
            old(cart).wf(),
            old(self).elapsed.0 + 10 <= usize::MAX,
            old(self).buzzer.pulse_times < usize::MAX,
            old(self).elapsed.0 + 10 + old(cart).settings.charge_info.offset + old(
                cart,
            ).settings.charge_info.scale * 100 <= usize::MAX,
        ensures
            final(self).wf(),
            final(cart).wf(),
            final(cart).rom@ == old(cart).rom@,
            final(cart).settings == old(cart).settings,
            final(cart).ram@ == tms_ram_after(old(self).cpu, old(cart).ram@),
            final(self).elapsed.0 == old(self).elapsed.0 + 10,
            final(self).cpu == (Tms1100 {
                k: final(self).cpu.k,
                ..cpu_after(*old(self), *old(cart))
            }),
            final(self).cpu.k.0 < 16,
            old(cart).settings.rotary_enabled ==> ((final(self).cpu.k.0 / 8) % 2 == 1 <==> (old(
                self,
            ).rotary.charge.0 && old(self).rotary.charge_end.0 < old(self).elapsed.0 + 10)),
            final(self).cpu.k.0 == k_input(
                *keypad,
                cpu_after(*old(self), *old(cart)).r.0,
                old(cart).settings.rotary_enabled,
                old(self).rotary.charge.0 && old(self).rotary.charge_end.0 < old(
                    self,
                ).elapsed.0 + 10,
            ),
            final(self).driver.data == old(self).driver.data,
            final(self).driver.pulse.0 == lcd_pulse_in(*old(self), *old(cart)),
            final(self).driver.not_clock.0 == lcd_clock_in(*old(self), *old(cart)),
            final(self).driver.latches.data@ == lcd_latches_after(
                old(self).driver,
                lcd_data_in(*old(self), *old(cart)),
                lcd_clock_in(*old(self), *old(cart)),
            ),
            final(self).driver.latches.counter == lcd_counter_after(
                old(self).driver,
                lcd_pulse_in(*old(self), *old(cart)),
                lcd_clock_in(*old(self), *old(cart)),
            ),
            final(self).driver.row.0 == lcd_row_after(
                old(self).driver,
                lcd_data_in(*old(self), *old(cart)),
                lcd_pulse_in(*old(self), *old(cart)),
                lcd_clock_in(*old(self), *old(cart)),
            ),
            final(self).driver.col.0 == lcd_col_after(
                old(self).driver,
                lcd_data_in(*old(self), *old(cart)),
                lcd_pulse_in(*old(self), *old(cart)),
                lcd_clock_in(*old(self), *old(cart)),
            ),
            final(self).buzzer == buzzer_step(
                old(self).buzzer,
                bit16(cpu_after(*old(self), *old(cart)).r.0, 0),
                final(self).elapsed,
            ),
            final(self).rotary.charge.0 == bit16(cpu_after(*old(self), *old(cart)).r.0, 2),
            !(!old(self).rotary.charge.0 && bit16(cpu_after(*old(self), *old(cart)).r.0, 2))
                ==> final(self).rotary.charge_end == old(self).rotary.charge_end,
            (!old(self).rotary.charge.0 && bit16(cpu_after(*old(self), *old(cart)).r.0, 2))
                ==> exists|t: usize|
                t <= 100 && final(self).rotary.charge_end.0 == charge_end_time(
                    final(self).elapsed,
                    old(cart).settings.charge_info.offset,
                    old(cart).settings.charge_info.scale,
                    t,
                ),
    {
        // Each tick stands for 10 microseconds: one cycle at 100 kHz.
        self.elapsed.offset(Ms::new(10));

        self.cpu.clock(&cart.rom, &mut cart.ram);

        // Rebuild the K input from the keypad columns that the new R
        // output selects, then let the rotary charge state take over
        // the K8 bit when the cartridge enables the rotary.
        let k0: u8 = 0;
        let k1 = if self.cpu.r.nth_keyboard(0) { or_nib(k0, read_column(keypad, 0)) } else { k0 };
        let k2 = if self.cpu.r.nth_keyboard(1) { or_nib(k1, read_column(keypad, 1)) } else { k1 };
        let k3 = if self.cpu.r.nth_keyboard(2) { or_nib(k2, read_column(keypad, 2)) } else { k2 };
        let k: u8 = if cart.settings.rotary_enabled {
            let masked = k3 % 8;
            if self.rotary.charge.value() && self.rotary.charge_end.value()
                < self.elapsed.value() {
                masked + 8
            } else {
                masked
            }
        } else {
            k3
        };
        self.cpu.k = InputK(k);

        // Drive the LCD driver from the new O output (through the
        // cartridge's output PLA) and the two handshake lines on R.
        let data = cart.settings.output_pla.modify(self.cpu.o);
        let pulse = self.cpu.r.latch_pulse();
        let not_clock = self.cpu.r.not_clock();
        self.driver.clock(data, pulse, not_clock, display);

        // Drive the buzzer and the rotary controller from their R pins.
        let buzzer_pulse = self.cpu.r.buzzer_pulse();
        self.buzzer.clock(buzzer_pulse, self.elapsed);
        let charge = self.cpu.r.rotary_charge();
        self.rotary.clock(charge, self.elapsed, cart, paddle);
    }

    /// Synchronize the frame outputs: emit the buzzer's command for the
    /// frame that just ended and clear its pulse count. Nothing else
    /// changes.
    pub fn sync<B: buzzer::Api>(&mut self, frontend: &mut B)
        ensures
            final(self).cpu == old(self).cpu,
            final(self).driver == old(self).driver,
            final(self).rotary == old(self).rotary,
            final(self).elapsed == old(self).elapsed,
            final(self).buzzer.pulse_times == 0,
            final(self).buzzer.pulse == old(self).buzzer.pulse,
            final(self).buzzer.start == old(self).buzzer.start,
            final(self).buzzer.end == old(self).buzzer.end,
    {
        self.buzzer.sync(frontend);
    }
}

} // verus!

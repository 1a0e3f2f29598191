//! The Microvision's rotary controller (paddle).
//!
//! A pulse on the charge line charges an RC circuit for a time set by
//! the cartridge's wiring and the paddle's position; the CPU reads the
//! paddle by timing when the charge runs out.

use crate::cartridge::{Cartridge, ChargeInfo};
use crate::common::{Line, Ms};
use vstd::arithmetic::div_mod::lemma_div_is_ordered;
use vstd::arithmetic::mul::lemma_mul_inequality;
use vstd::prelude::*;

verus! {

/// The rotary charge line, wired to bit 2 of the R output.
pub type ChargePulse = Line;

/// The turn of a rotary controller as a percentage, 0 to 100.
#[derive(Clone, Copy, Debug)]
pub struct Percentage(usize);

impl Percentage {
    /// The percentage never exceeds 100.
    #[verifier::type_invariant]
    spec fn inv(self) -> bool {
        self.0 <= 100
    }

    /// The wrapped percentage value.
    pub closed spec fn spec_value(self) -> usize {
        self.0
    }

    /// Wrap a percentage; values above 100 are clamped to 100.
    pub fn new(amount: usize) -> (r: Percentage)
        ensures
            r.spec_value() == if amount > 100 { 100usize } else { amount },
    {
        Percentage(if amount > 100 { 100 } else { amount })
    }

    /// The percentage as a plain number, at most 100.
    pub fn value(&self) -> (r: usize)
        ensures
            r == self.spec_value(),
            r <= 100,
    {
        proof {
            use_type_invariant(self);
        }
        self.0
    }

    /// The percentage as a plain number, at most 100.
    pub fn get(&self) -> (r: usize)
        ensures
            r == self.spec_value(),
            r <= 100,
    {
        self.value()
    }
}

/// An abstract (frontend agnostic) rotary controller.
pub trait Api {
    /// The current turn of the controller.
    fn turn(&self) -> Percentage;
}

/// An emulated rotary controller.
#[derive(Clone, Copy, Debug, PartialEq, Eq, Structural)]
pub struct Rotary {
    /// When the charge most recently supplied is expected to run out.
    pub charge_end: Ms,
    /// The previous level of the charge line, for edge detection.
    pub charge: ChargePulse,
}

/// The charge-end time that a pulse at `now` sets for a controller
/// turned to `turn` percent, under the cartridge's charge wiring.
pub open spec fn charge_end_time(now: Ms, offset: usize, scale: usize, turn: usize) -> int {
    now.0 + offset + scale * turn / 10
}

/// The instant until which a charge pulse at `now` keeps the capacitor
/// charged, for the given wiring and the given paddle turn: the fixed
/// offset plus the scaled turn, a tenth of a scale unit per percent.
pub fn charge_time(now: Ms, info: ChargeInfo, turn: Percentage) -> (r: Ms)
    requires
        now.0 + info.offset + info.scale * 100 <= usize::MAX,
    ensures
        r.0 == charge_end_time(now, info.offset, info.scale, turn.spec_value()),
{
    let t = turn.value();
    proof {
        lemma_mul_inequality(t as int, 100, info.scale as int);
        lemma_div_is_ordered(info.scale * t, info.scale * 100, 10);
    }
    Ms::new(now.value() + info.offset + info.scale * t / 10)
}

impl Rotary {
    /// A controller with no charge and the line low.
    pub fn new() -> (r: Rotary)
        ensures
            r == (Rotary { charge_end: Ms(0), charge: Line(false) }),
    {
        Rotary { charge_end: Ms::new(0), charge: Line::new(false) }
    }

    /// Return this controller to its power-on state.
    pub fn reset(&mut self)
        ensures
            *final(self) == (Rotary { charge_end: Ms(0), charge: Line(false) }),
    {
        *self = Rotary::new();
    }

    /// Run one tick of the charging circuit: a rising edge of the
    /// charge line recharges the capacitor until a time set by the
    /// cartridge's wiring and the paddle's turn, which the frontend
    /// reports as a percentage.
    pub fn clock<A: Api>(
        &mut self,
        charge: ChargePulse,
        current_time: Ms,
        cart: &Cartridge,
        frontend: &A,
    )
        requires
            current_time.0 + cart.settings.charge_info.offset + cart.settings.charge_info.scale
                * 100 <= usize::MAX,
        ensures
            final(self).charge == charge,
            !(!old(self).charge.0 && charge.0) ==> final(self).charge_end == old(
                self,
            ).charge_end,
            (!old(self).charge.0 && charge.0) ==> exists|t: usize|
                t <= 100 && final(self).charge_end.0 == charge_end_time(
                    current_time,
                    cart.settings.charge_info.offset,
                    cart.settings.charge_info.scale,
                    t,
                ),
    {
        if self.charge.update_rising(charge) {
            let turn = frontend.turn();
            proof {
                use_type_invariant(&turn);
            }
            self.charge_end = charge_time(current_time, cart.settings.charge_info, turn);
        }
    }
}

} // verus!

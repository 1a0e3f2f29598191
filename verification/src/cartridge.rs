//! Game cartridges: the ROM and RAM chips and the cartridge-specific
//! hardware wirings.

use crate::display::DataLine;
use crate::memory::{Ram, Rom};
use crate::tms1100::{rev4, OutputO};
use vstd::prelude::*;

verus! {

/// The charge settings of the rotary controller circuit: how long a
/// charge pulse keeps the capacitor charged.
#[derive(Clone, Copy, Debug, PartialEq, Eq, Structural)]
pub struct ChargeInfo {
    /// The fixed part of the charge time, in microseconds.
    pub offset: usize,
    /// The part of the charge time scaled by the controller's turn.
    pub scale: usize,
}

impl Default for ChargeInfo {
    /// The charge timing that most cartridges wire: 600 microseconds
    /// plus 6.5 per turn percent.
    fn default() -> (r: ChargeInfo)
        ensures
            r == (ChargeInfo { offset: 600, scale: 65 }),
    {
        ChargeInfo { offset: 600, scale: 65 }
    }
}

/// The cartridge's decode PLA on the O output of the TMS1100, deciding
/// what reaches the data lines of the LCD driver.
#[derive(Clone, Copy, Debug, PartialEq, Eq, Structural)]
pub enum OutputPla {
    /// The O output's low nibble passes through unchanged.
    Normal,
    /// The O output's low nibble is bit-reversed (the common wiring).
    Reversed,
}

/// The data nibble that the output PLA puts on the LCD data lines for
/// the given O output value.
pub open spec fn pla_data(pla: OutputPla, o: u8) -> u8 {
    match pla {
        OutputPla::Normal => o % 16,
        OutputPla::Reversed => rev4(o % 16),
    }
}

impl Default for OutputPla {
    /// The common wiring: reversed.
    fn default() -> (r: OutputPla)
        ensures
            r == OutputPla::Reversed,
    {
        OutputPla::Reversed
    }
}

impl OutputPla {
    /// Turn the O output of the TMS1100 into the LCD driver's data
    /// line input.
    pub fn modify(self, o: OutputO) -> (r: DataLine)
        ensures
            r.0 == pla_data(self, o.0),
            r.0 < 16,
    {
        match self {
            OutputPla::Normal => DataLine(o.0 % 16),
            OutputPla::Reversed => DataLine(crate::tms1100::reverse_nibble(o.0 % 16)),
        }
    }
}

/// The cartridge-specific settings.
#[derive(Clone, Copy, Debug, PartialEq, Eq, Structural)]
pub struct Settings {
    /// The charge settings of the rotary controller circuit.
    pub charge_info: ChargeInfo,
    /// The decode PLA on the O output.
    pub output_pla: OutputPla,
    /// Whether the cartridge uses the rotary controller.
    pub rotary_enabled: bool,
}

impl Default for Settings {
    /// The settings that most cartridges use: default charge timing,
    /// reversed output PLA, rotary controller enabled.
    fn default() -> (r: Settings)
        ensures
            r == (Settings {
                charge_info: ChargeInfo { offset: 600, scale: 65 },
                output_pla: OutputPla::Reversed,
                rotary_enabled: true,
            }),
    {
        Settings {
            charge_info: ChargeInfo { offset: 600, scale: 65 },
            output_pla: OutputPla::Reversed,
            rotary_enabled: true,
        }
    }
}

/// An interchangeable game cartridge: its ROM image, its working RAM
/// and its hardware wirings.
#[derive(Clone, Debug)]
pub struct Cartridge {
    /// The 2048-byte ROM image.
    pub rom: Rom,
    /// The 128-nibble working RAM.
    pub ram: Ram,
    /// The cartridge-specific settings.
    pub settings: Settings,
}

impl Cartridge {
    /// Both memory chips hold well-formed contents.
    pub open spec fn wf(&self) -> bool {
        self.rom.wf() && self.ram.wf()
    }

    /// A cartridge with zeroed ROM and RAM and the common settings.
    pub fn new() -> (r: Cartridge)
        ensures
            r.wf(),
            r.settings == (Settings {
                charge_info: ChargeInfo { offset: 600, scale: 65 },
                output_pla: OutputPla::Reversed,
                rotary_enabled: true,
            }),
            forall|i: int| 0 <= i < 2048 ==> r.rom@[i] == 0,
            forall|i: int| 0 <= i < 128 ==> r.ram@[i] == 0,
    {
        Cartridge { rom: Rom::new(), ram: Ram::new(), settings: Settings::default() }
    }
}

} // verus!

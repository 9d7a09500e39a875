//! How the VS1053 audio decoder is wired to the board.
use vstd::prelude::*;

use crate::led::Level;

verus! {

/// The level of the clock line of a bus while it is idle.
#[derive(Clone, Copy, Debug, PartialEq, Eq, Structural)]
pub enum Polarity {
    IdleLow,
    IdleHigh,
}

/// The edge of the clock on which a bus takes a bit.
#[derive(Clone, Copy, Debug, PartialEq, Eq, Structural)]
pub enum ClockPhase {
    CaptureOnFirstTransition,
    CaptureOnSecondTransition,
}

/// How fast an output changes its level.
#[derive(Clone, Copy, Debug, PartialEq, Eq, Structural)]
pub enum Speed {
    Low,
    Medium,
    VeryHigh,
}

/// The resistor that holds an input that nothing drives.
#[derive(Clone, Copy, Debug, PartialEq, Eq, Structural)]
pub enum Pull {
    Floating,
    Up,
    Down,
}

/// How the bus to the decoder runs.
#[derive(Clone, Copy, Debug, PartialEq, Eq, Structural)]
pub struct SpiSettings {
    pub frequency_hz: u32,
    pub polarity: Polarity,
    pub phase: ClockPhase,
}

/// How an output starts.
#[derive(Clone, Copy, Debug, PartialEq, Eq, Structural)]
pub struct OutputSettings {
    pub level: Level,
    pub speed: Speed,
}

/// The settings of the pins and of the bus of the decoder.
#[derive(Clone, Copy, Debug, PartialEq, Eq, Structural)]
pub struct VS1053Hardware {
    pub spi: SpiSettings,
    /// Selects the chip while it is low.
    pub cs: OutputSettings,
    /// Selects between data and commands.
    pub dc: OutputSettings,
    /// The chip asks for data on it.
    pub req: Pull,
    /// Resets the chip while it is low.
    pub reset: OutputSettings,
}

impl VS1053Hardware {
    /// The settings to start with: a slow bus, no chip selected, no reset.
    pub fn init() -> (hardware: VS1053Hardware)
        ensures
            hardware.spi == (SpiSettings {
                frequency_hz: 250_000,
                polarity: Polarity::IdleLow,
                phase: ClockPhase::CaptureOnFirstTransition,
            }),
            hardware.cs == (OutputSettings { level: Level::High, speed: Speed::Low }),
            hardware.dc == (OutputSettings { level: Level::High, speed: Speed::Low }),
            hardware.req == Pull::Up,
            hardware.reset == (OutputSettings { level: Level::High, speed: Speed::Low }),
    {
        let idle = OutputSettings { level: Level::High, speed: Speed::Low };
        VS1053Hardware {
            spi: SpiSettings {
                frequency_hz: 250_000,
                polarity: Polarity::IdleLow,
                phase: ClockPhase::CaptureOnFirstTransition,
            },
            cs: idle,
            dc: idle,
            req: Pull::Up,
            reset: idle,
        }
    }
}

} // verus!

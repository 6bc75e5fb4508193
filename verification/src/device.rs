//! The units that the interconnect joins, as traits for the user to
//! implement, and the names of their ports.
//!
//! The traits ask nothing of an implementation and promise nothing of it.
//! Where a bus or the console calls a device, its contract says which method
//! it calls, in which state and with which arguments, and that the outcome is
//! one that this call can have: whatever contract an implementation gives its
//! method then holds of the outcome. Such a clause reads
//!
//! ```text
//! exists|unit: &mut A| *unit == before && *final(unit) == after
//!     && call_ensures(A::write_register, (unit, reg, data), res)
//! ```
//!
//! and says that `write_register` was called once, on the unit `before` with
//! `reg` and `data`, that it left the unit as `after`, and that it returned
//! `res`.
use vstd::prelude::*;

use crate::bus::{CpuBus, PpuBus};
use crate::error::BusFault;

verus! {

/// The register ports of the picture unit that the CPU-side bus reaches.
#[derive(Clone, Copy, Debug, PartialEq, Eq, Structural)]
pub enum PpuRegister {
    Ctrl,
    Mask,
    Status,
    OamAddr,
    OamData,
    Scroll,
    VramAddr,
    VramData,
    OamDma,
}

/// The register ports of the audio unit.
#[derive(Clone, Copy, Debug, PartialEq, Eq, Structural)]
pub enum ApuRegister {
    SquareCh1Control1,
    SquareCh1Control2,
    SquareCh1Freq1,
    SquareCh1Freq2,
    SquareCh2Control1,
    SquareCh2Control2,
    SquareCh2Freq1,
    SquareCh2Freq2,
    SignControl,
    SignFreq1,
    SignFreq2,
    NoiseControl,
    NoiseRand,
    NoiseDuration,
    DpcmControl1,
    DpcmControl2,
    DpcmControl3,
    DpcmControl4,
    VoiceControl,
}

/// A button of a controller.
#[derive(Clone, Copy, Debug, PartialEq, Eq, Structural)]
pub enum JoypadKey {
    A,
    B,
    Select,
    Start,
    Up,
    Down,
    Left,
    Right,
}

impl PpuRegister {
    /// The CPU address at which the port sits, before mirroring.
    pub open spec fn address(self) -> u16 {
        match self {
            PpuRegister::Ctrl => 0x2000,
            PpuRegister::Mask => 0x2001,
            PpuRegister::Status => 0x2002,
            PpuRegister::OamAddr => 0x2003,
            PpuRegister::OamData => 0x2004,
            PpuRegister::Scroll => 0x2005,
            PpuRegister::VramAddr => 0x2006,
            PpuRegister::VramData => 0x2007,
            PpuRegister::OamDma => 0x4014,
        }
    }
}

impl ApuRegister {
    /// The CPU address at which the port sits.
    pub open spec fn address(self) -> u16 {
        match self {
            ApuRegister::SquareCh1Control1 => 0x4000,
            ApuRegister::SquareCh1Control2 => 0x4001,
            ApuRegister::SquareCh1Freq1 => 0x4002,
            ApuRegister::SquareCh1Freq2 => 0x4003,
            ApuRegister::SquareCh2Control1 => 0x4004,
            ApuRegister::SquareCh2Control2 => 0x4005,
            ApuRegister::SquareCh2Freq1 => 0x4006,
            ApuRegister::SquareCh2Freq2 => 0x4007,
            ApuRegister::SignControl => 0x4008,
            ApuRegister::SignFreq1 => 0x400A,
            ApuRegister::SignFreq2 => 0x400B,
            ApuRegister::NoiseControl => 0x400C,
            ApuRegister::NoiseRand => 0x400E,
            ApuRegister::NoiseDuration => 0x400F,
            ApuRegister::DpcmControl1 => 0x4010,
            ApuRegister::DpcmControl2 => 0x4011,
            ApuRegister::DpcmControl3 => 0x4012,
            ApuRegister::DpcmControl4 => 0x4013,
            ApuRegister::VoiceControl => 0x4015,
        }
    }
}

impl JoypadKey {
    /// The button that a host names by `index`, if it names one.
    pub open spec fn at(index: int) -> Option<JoypadKey> {
        if index == 0 {
            Some(JoypadKey::A)
        } else if index == 1 {
            Some(JoypadKey::B)
        } else if index == 2 {
            Some(JoypadKey::Select)
        } else if index == 3 {
            Some(JoypadKey::Start)
        } else if index == 4 {
            Some(JoypadKey::Up)
        } else if index == 5 {
            Some(JoypadKey::Down)
        } else if index == 6 {
            Some(JoypadKey::Left)
        } else if index == 7 {
            Some(JoypadKey::Right)
        } else {
            None
        }
    }

    /// Decodes the number by which a host names a button.
    pub fn from_index(index: i32) -> (key: Option<JoypadKey>)
        ensures
            key == JoypadKey::at(index as int),
            key.is_some() <==> 0 <= index < 8,
    {
        match index {
            0 => Some(JoypadKey::A),
            1 => Some(JoypadKey::B),
            2 => Some(JoypadKey::Select),
            3 => Some(JoypadKey::Start),
            4 => Some(JoypadKey::Up),
            5 => Some(JoypadKey::Down),
            6 => Some(JoypadKey::Left),
            7 => Some(JoypadKey::Right),
            _ => None,
        }
    }
}

/// The cartridge's bank-switching logic, reached from both buses. A read
/// leaves the cartridge as it is.
pub trait Mapper {
    /// Answers a read of the CPU-side bus.
    fn read_cpu(&self, addr: u16) -> Result<u8, BusFault>;

    /// Takes a write of the CPU-side bus.
    fn write_cpu(&mut self, addr: u16, data: u8) -> Result<(), BusFault>;

    /// Answers a read of the picture-side bus.
    fn read_ppu(&self, addr: u16) -> Result<u8, BusFault>;

    /// Takes a write of the picture-side bus.
    fn write_ppu(&mut self, addr: u16, data: u8) -> Result<(), BusFault>;
}

/// The picture unit. It is handed the picture-side bus and the cartridge
/// whenever it runs: it reads and writes video memory through the bus, asks
/// for an OAM DMA with [`PpuBus::request_dma`] and raises the interrupt line
/// by setting the bus's `nmi`.
pub trait PictureUnit {
    /// Answers a read of one of its ports by the processor.
    fn read_register<M: Mapper>(
        &mut self,
        reg: PpuRegister,
        bus: &mut PpuBus,
        mapper: &M,
    ) -> Result<u8, BusFault>;

    /// Takes a write to one of its ports by the processor.
    fn write_register<M: Mapper>(
        &mut self,
        reg: PpuRegister,
        data: u8,
        bus: &mut PpuBus,
        mapper: &mut M,
    ) -> Result<(), BusFault>;

    /// Advances the unit by one step of the master clock.
    fn tick<M: Mapper>(&mut self, bus: &mut PpuBus, mapper: &mut M) -> Result<(), BusFault>;

    /// Hands out the finished frame.
    fn render(&mut self) -> Result<Vec<u8>, BusFault>;
}

/// The audio unit, of which the interconnect knows the register ports only.
pub trait AudioUnit {
    /// Answers a read of one of its ports by the processor.
    fn read_register(&mut self, reg: ApuRegister) -> Result<u8, BusFault>;

    /// Takes a write to one of its ports by the processor.
    fn write_register(&mut self, reg: ApuRegister, data: u8) -> Result<(), BusFault>;
}

/// A controller port: the byte-wide port that the CPU sees and the buttons
/// that the host presses.
pub trait Controller {
    /// Answers a read of the port by the processor.
    fn read(&mut self) -> Result<u8, BusFault>;

    /// Takes a write to the port by the processor.
    fn write(&mut self, data: u8) -> Result<(), BusFault>;

    /// Takes note that the host pressed a button.
    fn keydown(&mut self, key: JoypadKey);

    /// Takes note that the host released a button.
    fn keyup(&mut self, key: JoypadKey);
}

/// The processor. It reaches everything else through the CPU-side bus, asks
/// that bus for a pending interrupt, and works off the bus's `stalls` before
/// it executes further. The console drains the queue of the bus before each
/// step: the processor does not.
pub trait CpuEngine {
    /// Advances the processor by one step of the master clock.
    fn tick<M: Mapper, P: PictureUnit, A: AudioUnit, J: Controller>(
        &mut self,
        bus: &mut CpuBus<M, P, A, J>,
    ) -> Result<(), BusFault>;

    /// Puts the processor's registers back to their state at power-on.
    fn reset<M: Mapper, P: PictureUnit, A: AudioUnit, J: Controller>(
        &mut self,
        bus: &mut CpuBus<M, P, A, J>,
    ) -> Result<(), BusFault>;
}

} // verus!

use vstd::prelude::*;

use crate::device::{ApuRegister, PpuRegister};

verus! {

/// What a CPU address resolves to.
#[derive(Clone, Copy, Debug, PartialEq, Eq, Structural)]
pub enum CpuTarget {
    /// A byte of work RAM, by its offset.
    WorkRam(u16),
    /// A register port of the picture unit.
    Picture(PpuRegister),
    /// A register port of the audio unit.
    Audio(ApuRegister),
    /// The port of the first controller.
    Controller1,
    /// The port of the second controller.
    Controller2,
    /// The cartridge, at the given CPU address.
    Cartridge(u16),
    /// Nothing: a read gives [`UNMAPPED_READ`] and a write is dropped.
    Unmapped,
}

/// What a picture-side address resolves to.
#[derive(Clone, Copy, Debug, PartialEq, Eq, Structural)]
pub enum PpuTarget {
    /// The cartridge, at the given picture-side address.
    Cartridge(u16),
    /// A byte of video RAM, by its offset.
    Vram(u16),
    /// A byte of palette RAM, by its offset.
    Palette(u16),
    /// Nothing: a read gives [`UNMAPPED_READ`] and a write is dropped.
    Unmapped,
}

/// The byte that a read gives where the address resolves to nothing, on
/// either bus.
pub const UNMAPPED_READ: u8 = 0;

/// The address that `addr` stands for once the mirrors of work RAM and of the
/// picture registers are folded away.
pub open spec fn cpu_canonical(addr: u16) -> u16 {
    if addr < 0x2000 {
        (addr % 0x0800) as u16
    } else if addr < 0x4000 {
        (0x2000 + addr % 8) as u16
    } else {
        addr
    }
}

/// The picture register at a canonical CPU address.
pub open spec fn ppu_register_at(addr: u16) -> Option<PpuRegister> {
    if addr == 0x2000 {
        Some(PpuRegister::Ctrl)
    } else if addr == 0x2001 {
        Some(PpuRegister::Mask)
    } else if addr == 0x2002 {
        Some(PpuRegister::Status)
    } else if addr == 0x2003 {
        Some(PpuRegister::OamAddr)
    } else if addr == 0x2004 {
        Some(PpuRegister::OamData)
    } else if addr == 0x2005 {
        Some(PpuRegister::Scroll)
    } else if addr == 0x2006 {
        Some(PpuRegister::VramAddr)
    } else if addr == 0x2007 {
        Some(PpuRegister::VramData)
    } else if addr == 0x4014 {
        Some(PpuRegister::OamDma)
    } else {
        None
    }
}

/// The audio register at a CPU address.
pub open spec fn apu_register_at(addr: u16) -> Option<ApuRegister> {
    if addr == 0x4000 {
        Some(ApuRegister::SquareCh1Control1)
    } else if addr == 0x4001 {
        Some(ApuRegister::SquareCh1Control2)
    } else if addr == 0x4002 {
        Some(ApuRegister::SquareCh1Freq1)
    } else if addr == 0x4003 {
        Some(ApuRegister::SquareCh1Freq2)
    } else if addr == 0x4004 {
        Some(ApuRegister::SquareCh2Control1)
    } else if addr == 0x4005 {
        Some(ApuRegister::SquareCh2Control2)
    } else if addr == 0x4006 {
        Some(ApuRegister::SquareCh2Freq1)
    } else if addr == 0x4007 {
        Some(ApuRegister::SquareCh2Freq2)
    } else if addr == 0x4008 {
        Some(ApuRegister::SignControl)
    } else if addr == 0x400A {
        Some(ApuRegister::SignFreq1)
    } else if addr == 0x400B {
        Some(ApuRegister::SignFreq2)
    } else if addr == 0x400C {
        Some(ApuRegister::NoiseControl)
    } else if addr == 0x400E {
        Some(ApuRegister::NoiseRand)
    } else if addr == 0x400F {
        Some(ApuRegister::NoiseDuration)
    } else if addr == 0x4010 {
        Some(ApuRegister::DpcmControl1)
    } else if addr == 0x4011 {
        Some(ApuRegister::DpcmControl2)
    } else if addr == 0x4012 {
        Some(ApuRegister::DpcmControl3)
    } else if addr == 0x4013 {
        Some(ApuRegister::DpcmControl4)
    } else if addr == 0x4015 {
        Some(ApuRegister::VoiceControl)
    } else {
        None
    }
}

/// The target of a CPU access to `addr`, the same for a read and for a
/// write. Work RAM and its mirrors lie below 0x2000, the eight ports of the
/// picture unit and their mirrors from there to below 0x4000, the cartridge
/// from 0x4020 on. Between the two, an address that no port claims is
/// unmapped.
pub open spec fn cpu_target(addr: u16) -> CpuTarget {
    let a = cpu_canonical(addr);
    if a < 0x0800 {
        CpuTarget::WorkRam(a)
    } else if ppu_register_at(a) is Some {
        CpuTarget::Picture(ppu_register_at(a)->0)
    } else if apu_register_at(a) is Some {
        CpuTarget::Audio(apu_register_at(a)->0)
    } else if a == 0x4016 {
        CpuTarget::Controller1
    } else if a == 0x4017 {
        CpuTarget::Controller2
    } else if a >= 0x4020 {
        CpuTarget::Cartridge(a)
    } else {
        CpuTarget::Unmapped
    }
}

/// The address that a picture-side `addr` stands for once the first mirror
/// rule that matches it is applied: the nametable mirror, the four
/// sprite-palette slots that alias background slots, the palette mirror, and
/// the 14-bit wrap of the whole space, in that order.
pub open spec fn ppu_canonical(addr: u16) -> u16 {
    if 0x2800 <= addr <= 0x3EFF {
        (0x2000 + addr % 0x0800) as u16
    } else if 0x3F10 <= addr <= 0x3F1F && addr % 4 == 0 {
        (addr - 0x0010) as u16
    } else if 0x3F20 <= addr <= 0x3FFF {
        (0x3F00 + addr % 0x0020) as u16
    } else if addr >= 0x4000 {
        (addr % 0x4000) as u16
    } else {
        addr
    }
}

/// The target of a picture-side access to `addr`.
pub open spec fn ppu_target(addr: u16) -> PpuTarget {
    let a = ppu_canonical(addr);
    if a < 0x2000 {
        PpuTarget::Cartridge(a)
    } else if a < 0x2800 {
        PpuTarget::Vram((a - 0x2000) as u16)
    } else if 0x3F00 <= a < 0x3F20 {
        PpuTarget::Palette((a - 0x3F00) as u16)
    } else {
        PpuTarget::Unmapped
    }
}

/// Folds the mirrors of work RAM and of the picture registers away.
pub fn normalize_cpu(addr: u16) -> (a: u16)
    ensures
        a == cpu_canonical(addr),
{
    match addr {
        0x0800..=0x1FFF => (addr - 0x0800) % 0x0800,
        0x2008..=0x3FFF => 0x2000 + (addr - 0x2008) % 0x0008,
        _ => addr,
    }
}

/// The picture register at a canonical CPU address.
pub fn ppu_register(addr: u16) -> (reg: Option<PpuRegister>)
    ensures
        reg == ppu_register_at(addr),
        reg matches Some(r) ==> r.address() == addr,
{
    match addr {
        0x2000 => Some(PpuRegister::Ctrl),
        0x2001 => Some(PpuRegister::Mask),
        0x2002 => Some(PpuRegister::Status),
        0x2003 => Some(PpuRegister::OamAddr),
        0x2004 => Some(PpuRegister::OamData),
        0x2005 => Some(PpuRegister::Scroll),
        0x2006 => Some(PpuRegister::VramAddr),
        0x2007 => Some(PpuRegister::VramData),
        0x4014 => Some(PpuRegister::OamDma),
        _ => None,
    }
}

/// The audio register at a CPU address.
pub fn apu_register(addr: u16) -> (reg: Option<ApuRegister>)
    ensures
        reg == apu_register_at(addr),
        reg matches Some(r) ==> r.address() == addr,
{
    match addr {
        0x4000 => Some(ApuRegister::SquareCh1Control1),
        0x4001 => Some(ApuRegister::SquareCh1Control2),
        0x4002 => Some(ApuRegister::SquareCh1Freq1),
        0x4003 => Some(ApuRegister::SquareCh1Freq2),
        0x4004 => Some(ApuRegister::SquareCh2Control1),
        0x4005 => Some(ApuRegister::SquareCh2Control2),
        0x4006 => Some(ApuRegister::SquareCh2Freq1),
        0x4007 => Some(ApuRegister::SquareCh2Freq2),
        0x4008 => Some(ApuRegister::SignControl),
        0x400A => Some(ApuRegister::SignFreq1),
        0x400B => Some(ApuRegister::SignFreq2),
        0x400C => Some(ApuRegister::NoiseControl),
        0x400E => Some(ApuRegister::NoiseRand),
        0x400F => Some(ApuRegister::NoiseDuration),
        0x4010 => Some(ApuRegister::DpcmControl1),
        0x4011 => Some(ApuRegister::DpcmControl2),
        0x4012 => Some(ApuRegister::DpcmControl3),
        0x4013 => Some(ApuRegister::DpcmControl4),
        0x4015 => Some(ApuRegister::VoiceControl),
        _ => None,
    }
}

/// Resolves the target of a CPU access.
pub fn decode_cpu(addr: u16) -> (target: CpuTarget)
    ensures
        target == cpu_target(addr),
{
    let a: u16 = normalize_cpu(addr);
    if a < 0x0800 {
        return CpuTarget::WorkRam(a);
    }
    if let Some(reg) = ppu_register(a) {
        return CpuTarget::Picture(reg);
    }
    if let Some(reg) = apu_register(a) {
        return CpuTarget::Audio(reg);
    }
    match a {
        0x4016 => CpuTarget::Controller1,
        0x4017 => CpuTarget::Controller2,
        0x4020..=0xFFFF => CpuTarget::Cartridge(a),
        _ => CpuTarget::Unmapped,
    }
}

/// Applies the first picture-side mirror rule that matches.
pub fn normalize_ppu(addr: u16) -> (a: u16)
    ensures
        a == ppu_canonical(addr),
{
    match addr {
        0x2800..=0x3EFF => 0x2000 + (addr - 0x2800) % 0x0800,
        0x3F10..=0x3F1F if addr % 4 == 0 => addr - 0x0010,
        0x3F20..=0x3FFF => 0x3F00 + (addr - 0x3F20) % 0x0020,
        0x4000..=0xFFFF => addr % 0x4000,
        _ => addr,
    }
}

/// Resolves the target of a picture-side access.
pub fn decode_ppu(addr: u16) -> (target: PpuTarget)
    ensures
        target == ppu_target(addr),
{
    let a: u16 = normalize_ppu(addr);
    match a {
        0x0000..=0x1FFF => PpuTarget::Cartridge(a),
        0x2000..=0x27FF => PpuTarget::Vram(a - 0x2000),
        0x3F00..=0x3F1F => PpuTarget::Palette(a - 0x3F00),
        _ => PpuTarget::Unmapped,
    }
}

/// Whether two CPU addresses are mirrors of one another: both in the window
/// of work RAM and equal modulo its size, or both in the window of the
/// picture registers and equal modulo 8.
pub open spec fn cpu_mirrors(a: u16, b: u16) -> bool {
    ||| a < 0x2000 && b < 0x2000 && a % 0x0800 == b % 0x0800
    ||| 0x2000 <= a < 0x4000 && 0x2000 <= b < 0x4000 && a % 8 == b % 8
}

/// Whether a picture-side address is one of the four sprite-palette slots
/// that alias the background slot 16 below.
pub open spec fn sprite_palette_alias(addr: u16) -> bool {
    0x3F10 <= addr <= 0x3F1F && addr % 4 == 0
}

/// Mirrors resolve alike: two CPU addresses that are mirrors of one another
/// have one canonical address and one target.
pub proof fn cpu_mirrors_share_target(a: u16, b: u16)
    requires
        cpu_mirrors(a, b),
    ensures
        cpu_canonical(a) == cpu_canonical(b),
        cpu_target(a) == cpu_target(b),
{
}

/// Below 0x4000 every CPU address is a mirror of its canonical address, which
/// is its own canonical address.
pub proof fn cpu_canonical_is_mirror(addr: u16)
    requires
        addr < 0x4000,
    ensures
        cpu_mirrors(addr, cpu_canonical(addr)),
        cpu_canonical(cpu_canonical(addr)) == cpu_canonical(addr),
        cpu_target(cpu_canonical(addr)) == cpu_target(addr),
{
}

/// Every CPU address has its place: work RAM below 0x2000, a port of the
/// picture unit from there to below 0x4000 and at 0x4014, a port of the audio
/// unit or of a controller at its address, the cartridge from 0x4020 on and
/// only there, and nothing at the ten addresses that are left. What a target
/// names lies within the thing it names.
pub proof fn cpu_targets_cover(addr: u16)
    ensures
        addr < 0x2000 <==> cpu_target(addr) is WorkRam,
        cpu_target(addr) matches CpuTarget::WorkRam(i) ==> i == addr % 0x0800,
        0x2000 <= addr < 0x4000 || addr == 0x4014 <==> cpu_target(addr) is Picture,
        cpu_target(addr) matches CpuTarget::Picture(reg) ==> reg.address() == cpu_canonical(addr),
        cpu_target(addr) matches CpuTarget::Audio(reg) ==> reg.address() == addr,
        cpu_target(addr) is Controller1 <==> addr == 0x4016,
        cpu_target(addr) is Controller2 <==> addr == 0x4017,
        addr >= 0x4020 <==> cpu_target(addr) is Cartridge,
        cpu_target(addr) matches CpuTarget::Cartridge(a) ==> a == addr,
        cpu_target(addr) is Unmapped <==> addr == 0x4009 || addr == 0x400D || 0x4018 <= addr
            <= 0x401F,
{
}

/// Every picture-side address has its place, and what a target names lies
/// within the thing it names.
pub proof fn ppu_targets_cover(addr: u16)
    ensures
        addr < 0x2000 ==> ppu_target(addr) == PpuTarget::Cartridge(addr),
        0x2000 <= addr < 0x3F00 ==> ppu_target(addr) == PpuTarget::Vram((addr % 0x0800) as u16),
        0x3F00 <= addr < 0x4000 && !sprite_palette_alias(addr) ==> ppu_target(addr)
            == PpuTarget::Palette((addr % 0x0020) as u16),
        ppu_target(addr) matches PpuTarget::Cartridge(a) ==> a < 0x2000,
        ppu_target(addr) matches PpuTarget::Vram(i) ==> i < 0x0800,
        ppu_target(addr) matches PpuTarget::Palette(i) ==> i < 0x0020,
        ppu_target(addr) is Unmapped <==> addr >= 0x4000 && (0x2800 <= addr % 0x4000 < 0x3F00
            || 0x3F20 <= addr % 0x4000),
{
}

/// A sprite-palette slot that aliases a background slot resolves to the byte
/// of palette RAM that the background slot resolves to.
pub proof fn sprite_palette_shares_target(addr: u16)
    requires
        sprite_palette_alias(addr),
    ensures
        ppu_target(addr) == ppu_target((addr - 0x0010) as u16),
        ppu_target(addr) == PpuTarget::Palette((addr - 0x3F10) as u16),
{
}

} // verus!

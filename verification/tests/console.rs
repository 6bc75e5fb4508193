use std::cell::RefCell;
use std::rc::Rc;

use nes_bus::bus::{CpuBus, PpuBus};
use nes_bus::device::{
    ApuRegister, AudioUnit, Controller, CpuEngine, JoypadKey, Mapper, PictureUnit, PpuRegister,
};
use nes_bus::error::{BusFault, EmuError};
use nes_bus::nes::{Nes, TICKS_PER_FRAME};
use nes_bus::session::{report, Session};

const FRAME_WIDTH: usize = 256;
const FRAME_HEIGHT: usize = 240;

/// What the units did, in the order in which they did it.
type Log = Rc<RefCell<Vec<&'static str>>>;

/// A single-bank cartridge: 16 KiB of program memory, seen twice from 0x8000
/// on, and 8 KiB of picture memory.
struct Cartridge {
    prg: Vec<u8>,
    chr: Vec<u8>,
}

impl Cartridge {
    fn new() -> Self {
        let mut prg: Vec<u8> = (0..0x4000usize).map(|a| (a * 5 + 1) as u8).collect();
        prg[0x3FFC] = 0x00;
        prg[0x3FFD] = 0x80;
        Cartridge { prg, chr: vec![0; 0x2000] }
    }
}

impl Mapper for Cartridge {
    fn read_cpu(&self, addr: u16) -> Result<u8, BusFault> {
        if addr < 0x8000 {
            return Ok((addr >> 8) as u8);
        }
        Ok(self.prg[(addr as usize - 0x8000) % 0x4000])
    }

    fn write_cpu(&mut self, _addr: u16, _data: u8) -> Result<(), BusFault> {
        Ok(())
    }

    fn read_ppu(&self, addr: u16) -> Result<u8, BusFault> {
        Ok(self.chr[addr as usize])
    }

    fn write_ppu(&mut self, addr: u16, data: u8) -> Result<(), BusFault> {
        self.chr[addr as usize] = data;
        Ok(())
    }
}

/// A picture unit that counts its steps, raises the interrupt line once per
/// frame, asks for a DMA when its DMA port is written, and hands out a frame
/// of one byte per dot.
struct Picture {
    steps: u32,
    oam_addr: u8,
    fail_at: Option<u32>,
    log: Log,
}

impl PictureUnit for Picture {
    fn read_register<M: Mapper>(
        &mut self,
        _reg: PpuRegister,
        _bus: &mut PpuBus,
        _mapper: &M,
    ) -> Result<u8, BusFault> {
        Ok(0)
    }

    fn write_register<M: Mapper>(
        &mut self,
        reg: PpuRegister,
        data: u8,
        bus: &mut PpuBus,
        _mapper: &mut M,
    ) -> Result<(), BusFault> {
        match reg {
            PpuRegister::OamAddr => {
                self.oam_addr = data;
                Ok(())
            }
            PpuRegister::OamDma => bus.request_dma((data as u16) << 8, self.oam_addr),
            _ => Ok(()),
        }
    }

    fn tick<M: Mapper>(&mut self, bus: &mut PpuBus, _mapper: &mut M) -> Result<(), BusFault> {
        self.log.borrow_mut().push("picture");
        if self.fail_at == Some(self.steps) {
            return Err(BusFault);
        }
        self.steps += 1;
        if self.steps % TICKS_PER_FRAME == 0 {
            bus.nmi = true;
        }
        Ok(())
    }

    fn render(&mut self) -> Result<Vec<u8>, BusFault> {
        Ok(vec![0x0F; FRAME_WIDTH * FRAME_HEIGHT])
    }
}

struct Audio;

impl AudioUnit for Audio {
    fn read_register(&mut self, _reg: ApuRegister) -> Result<u8, BusFault> {
        Ok(0)
    }

    fn write_register(&mut self, _reg: ApuRegister, _data: u8) -> Result<(), BusFault> {
        Ok(())
    }
}

struct Pad {
    down: Vec<JoypadKey>,
}

impl Controller for Pad {
    fn read(&mut self) -> Result<u8, BusFault> {
        Ok(self.down.len() as u8)
    }

    fn write(&mut self, _data: u8) -> Result<(), BusFault> {
        Ok(())
    }

    fn keydown(&mut self, key: JoypadKey) {
        if !self.down.contains(&key) {
            self.down.push(key);
        }
    }

    fn keyup(&mut self, key: JoypadKey) {
        self.down.retain(|k| *k != key);
    }
}

/// A processor that works off its stall debt, then performs the writes of a
/// script, one per step.
struct Engine {
    script: Vec<(u16, u8)>,
    next: usize,
    pc: u16,
    a: u8,
    steps: u32,
    interrupts: u32,
    fail_at: Option<u32>,
    log: Log,
}

impl CpuEngine for Engine {
    fn tick<M: Mapper, P: PictureUnit, A: AudioUnit, J: Controller>(
        &mut self,
        bus: &mut CpuBus<M, P, A, J>,
    ) -> Result<(), BusFault> {
        self.log.borrow_mut().push("cpu");
        if self.fail_at == Some(self.steps) {
            return Err(BusFault);
        }
        self.steps += 1;
        bus.cycles = bus.cycles.wrapping_add(1);
        if bus.nmi() {
            self.interrupts += 1;
        }
        if bus.stalls > 0 {
            bus.stalls -= 1;
            return Ok(());
        }
        if let Some((addr, data)) = self.script.get(self.next).copied() {
            self.next += 1;
            self.a = data;
            bus.write(addr, data)?;
        }
        Ok(())
    }

    fn reset<M: Mapper, P: PictureUnit, A: AudioUnit, J: Controller>(
        &mut self,
        bus: &mut CpuBus<M, P, A, J>,
    ) -> Result<(), BusFault> {
        self.log.borrow_mut().push("reset");
        self.pc = bus.read_word(0xFFFC)?;
        self.a = 0;
        Ok(())
    }
}

type Console = Nes<Engine, Cartridge, Picture, Audio, Pad>;

fn console_with(script: Vec<(u16, u8)>, log: &Log) -> Console {
    Nes::new(
        Engine {
            script,
            next: 0,
            pc: 0,
            a: 0xEE,
            steps: 0,
            interrupts: 0,
            fail_at: None,
            log: log.clone(),
        },
        Cartridge::new(),
        Picture { steps: 0, oam_addr: 0, fail_at: None, log: log.clone() },
        Audio,
        Pad { down: Vec::new() },
        Pad { down: Vec::new() },
    )
}

fn console(script: Vec<(u16, u8)>) -> Console {
    console_with(script, &Log::default())
}

#[test]
fn new_console_is_wired_and_fresh() {
    let nes = console(Vec::new());
    assert_eq!(nes.cpu.steps, 0);
    assert_eq!(nes.bus.cycles, 0);
    assert_eq!(nes.bus.stalls, 0);
    assert!(nes.bus.wram.iter().all(|b| *b == 0xFF));
    assert!(nes.bus.ppu_bus.vram.iter().all(|b| *b == 0xFF));
    assert!(nes.bus.ppu_bus.palette.iter().all(|b| *b == 0));
    assert!(nes.bus.ppu_bus.oam.iter().all(|b| *b == 0));
    assert!(nes.bus.ppu_bus.event.is_empty());
    assert!(nes.bus.ppu_bus.cpu_bus_sender.is_empty());
}

#[test]
fn tick_steps_the_processor_before_the_picture_unit() {
    let log = Log::default();
    let mut nes = console_with(Vec::new(), &log);
    nes.tick().unwrap();
    nes.tick().unwrap();
    assert_eq!(*log.borrow(), vec!["cpu", "picture", "cpu", "picture"]);
    assert_eq!(nes.cpu.steps, 2);
    assert_eq!(nes.bus.ppu.steps, 2);
}

#[test]
fn the_two_halves_of_a_step_drain_their_own_queue() {
    let log = Log::default();
    let mut nes = console_with(Vec::new(), &log);
    nes.bus.write(0x0200, 0x31).unwrap();
    nes.bus.ppu_bus.request_dma(0x0200, 0).unwrap();
    assert_eq!(nes.step_cpu(), Ok(()));
    assert_eq!(*log.borrow(), vec!["cpu"]);
    assert!(nes.bus.ppu_bus.cpu_bus_sender.is_empty());
    assert_eq!(nes.bus.ppu_bus.event.len(), 1);
    assert_eq!(nes.bus.ppu_bus.oam[0], 0);
    assert_eq!(nes.bus.ppu.steps, 0);
    assert_eq!(nes.step_picture(), Ok(()));
    assert_eq!(*log.borrow(), vec!["cpu", "picture"]);
    assert!(nes.bus.ppu_bus.event.is_empty());
    assert_eq!(nes.bus.ppu_bus.oam[0], 0x31);
    assert_eq!(nes.bus.ppu.steps, 1);
    assert_eq!(nes.cpu.steps, 1);
}

#[test]
fn interrupt_reaches_the_processor_once() {
    let mut nes = console(Vec::new());
    nes.bus.ppu_bus.nmi = true;
    nes.tick().unwrap();
    assert_eq!(nes.cpu.interrupts, 1);
    assert!(!nes.bus.ppu_bus.nmi);
    nes.tick().unwrap();
    assert_eq!(nes.cpu.interrupts, 1);
}

#[test]
fn a_fault_ends_the_tick_where_it_occurs() {
    let log = Log::default();
    let mut nes = console_with(Vec::new(), &log);
    nes.cpu.fail_at = Some(1);
    assert_eq!(nes.tick(), Ok(()));
    assert_eq!(nes.tick(), Err(BusFault));
    assert_eq!(*log.borrow(), vec!["cpu", "picture", "cpu"]);
    assert_eq!(nes.cpu.steps, 1);
    assert_eq!(nes.bus.ppu.steps, 1);
    let mut nes = console(Vec::new());
    nes.bus.ppu.fail_at = Some(0);
    assert_eq!(nes.tick(), Err(BusFault));
    assert_eq!(nes.cpu.steps, 1);
    assert_eq!(nes.bus.ppu.steps, 0);
}

#[test]
fn a_blocked_dma_fails_the_tick_before_any_unit_steps() {
    let log = Log::default();
    let mut nes = console_with(Vec::new(), &log);
    nes.bus.stalls = 65535;
    nes.bus.ppu_bus.request_dma(0x0200, 0).unwrap();
    assert_eq!(nes.tick(), Err(BusFault));
    assert!(log.borrow().is_empty());
    assert_eq!(nes.bus.stalls, 65535);
    assert_eq!(nes.bus.ppu_bus.cpu_bus_sender.len(), 1);
    assert_eq!(nes.render(), Err(BusFault));
    assert!(log.borrow().is_empty());
}

#[test]
fn dma_from_the_cartridge_arrives_after_two_ticks() {
    let mut nes = console(vec![(0x4014, 0x42)]);
    nes.tick().unwrap();
    assert_eq!(nes.bus.ppu_bus.cpu_bus_sender.len(), 1);
    assert!(nes.bus.ppu_bus.oam.iter().all(|b| *b == 0));
    assert_eq!(nes.bus.stalls, 0);
    nes.tick().unwrap();
    assert!(nes.bus.ppu_bus.cpu_bus_sender.is_empty());
    assert!(nes.bus.ppu_bus.event.is_empty());
    for i in 0..256usize {
        assert_eq!(nes.bus.ppu_bus.oam[i], 0x42);
    }
    assert_eq!(nes.bus.stalls, 513);
}

#[test]
fn dma_from_work_ram_arrives_after_two_ticks() {
    let mut script: Vec<(u16, u8)> = (0..256u16).map(|i| (0x0300 + i, (i ^ 0x5A) as u8)).collect();
    script.push((0x2003, 0x00));
    script.push((0x4014, 0x03));
    let mut nes = console(script);
    for _ in 0..258 {
        nes.tick().unwrap();
    }
    assert_eq!(nes.bus.ppu_bus.cpu_bus_sender.len(), 1);
    assert!(nes.bus.ppu_bus.oam.iter().all(|b| *b == 0));
    nes.tick().unwrap();
    for i in 0..256usize {
        assert_eq!(nes.bus.ppu_bus.oam[i], (i ^ 0x5A) as u8);
        assert_eq!(nes.bus.wram[0x0300 + i], (i ^ 0x5A) as u8);
    }
    assert_eq!(nes.bus.cycles, 3);
    assert_eq!(nes.bus.stalls, 512);
}

#[test]
fn render_runs_one_frame_of_ticks() {
    let mut nes = console(Vec::new());
    nes.reset().unwrap();
    let frame = nes.render().unwrap();
    assert_eq!(frame.len(), FRAME_WIDTH * FRAME_HEIGHT);
    assert_eq!(TICKS_PER_FRAME, 89342);
    assert_eq!(nes.cpu.steps, 89342);
    assert_eq!(nes.bus.ppu.steps, 89342);
    assert!(nes.bus.ppu_bus.nmi);
    nes.render().unwrap();
    assert_eq!(nes.cpu.steps, 2 * 89342);
    assert_eq!(nes.bus.ppu.steps, 2 * 89342);
    assert_eq!(nes.cpu.interrupts, 1);
}

#[test]
fn render_gives_no_frame_after_a_fault() {
    let mut nes = console(Vec::new());
    nes.cpu.fail_at = Some(1000);
    assert_eq!(nes.render(), Err(BusFault));
    assert_eq!(nes.cpu.steps, 1000);
    assert_eq!(nes.bus.ppu.steps, 1000);
}

#[test]
fn reset_reaches_the_processor_only() {
    let log = Log::default();
    let mut nes = console_with(vec![(0x0000, 0x12)], &log);
    nes.tick().unwrap();
    nes.bus.ppu_bus.palette[3] = 0x2A;
    nes.reset().unwrap();
    assert_eq!(nes.cpu.pc, 0x8000);
    assert_eq!(nes.cpu.a, 0);
    assert_eq!(nes.cpu.steps, 1);
    assert_eq!(nes.bus.wram[0], 0x12);
    assert_eq!(nes.bus.ppu_bus.palette[3], 0x2A);
    assert_eq!(nes.bus.ppu.steps, 1);
    assert_eq!(*log.borrow(), vec!["cpu", "picture", "reset"]);
}

#[test]
fn reset_twice_is_reset_once() {
    let mut once = console(vec![(0x0000, 0x12)]);
    let mut twice = console(vec![(0x0000, 0x12)]);
    once.tick().unwrap();
    twice.tick().unwrap();
    once.reset().unwrap();
    twice.reset().unwrap();
    twice.reset().unwrap();
    assert_eq!(once.cpu.pc, twice.cpu.pc);
    assert_eq!(once.cpu.a, twice.cpu.a);
    assert_eq!(once.cpu.steps, twice.cpu.steps);
    assert_eq!(once.bus.wram, twice.bus.wram);
    assert_eq!(once.bus.stalls, twice.bus.stalls);
}

#[test]
fn key_events_reach_their_controller() {
    let mut nes = console(Vec::new());
    nes.player1_keydown(JoypadKey::A);
    nes.player1_keydown(JoypadKey::Start);
    nes.player2_keydown(JoypadKey::Left);
    assert_eq!(nes.bus.joypad1.down, vec![JoypadKey::A, JoypadKey::Start]);
    assert_eq!(nes.bus.joypad2.down, vec![JoypadKey::Left]);
    nes.player1_keyup(JoypadKey::A);
    nes.player2_keyup(JoypadKey::Left);
    assert_eq!(nes.bus.joypad1.down, vec![JoypadKey::Start]);
    assert!(nes.bus.joypad2.down.is_empty());
    assert_eq!(nes.bus.read(0x4016), Ok(1));
    assert_eq!(nes.cpu.steps, 0);
}

#[test]
fn unloaded_session_refuses_everything_but_a_load() {
    let mut session: Session<Engine, Cartridge, Picture, Audio, Pad> = Session::new();
    assert!(!session.is_loaded());
    assert_eq!(session.reset(), Err(EmuError::NotLoaded));
    assert_eq!(session.tick(), Err(EmuError::NotLoaded));
    assert_eq!(session.render(), Err(EmuError::NotLoaded));
    assert_eq!(session.player1_keydown(JoypadKey::A), Err(EmuError::NotLoaded));
    assert_eq!(session.player1_keyup(JoypadKey::A), Err(EmuError::NotLoaded));
    assert_eq!(session.player2_keydown(JoypadKey::B), Err(EmuError::NotLoaded));
    assert_eq!(session.player2_keyup(JoypadKey::B), Err(EmuError::NotLoaded));
    assert!(!session.is_loaded());
    assert!(session.nes.is_none());
}

#[test]
fn failed_load_leaves_the_session_as_it_was() {
    let mut session: Session<Engine, Cartridge, Picture, Audio, Pad> = Session::new();
    assert_eq!(session.load_rom(None), Err(EmuError::LoadError));
    assert!(!session.is_loaded());
    assert_eq!(session.tick(), Err(EmuError::NotLoaded));
    assert_eq!(session.load_rom(Some(console(Vec::new()))), Ok(()));
    session.tick().unwrap();
    assert_eq!(session.load_rom(None), Err(EmuError::LoadError));
    assert!(session.is_loaded());
    assert_eq!(session.nes.as_ref().map(|nes| nes.cpu.steps), Some(1));
    assert_eq!(session.tick(), Ok(()));
}

#[test]
fn a_load_replaces_the_console() {
    let mut session = Session::new();
    session.load_rom(Some(console(Vec::new()))).unwrap();
    session.tick().unwrap();
    session.tick().unwrap();
    session.player1_keydown(JoypadKey::Up).unwrap();
    session.load_rom(Some(console(Vec::new()))).unwrap();
    let nes = session.nes.as_ref().unwrap();
    assert_eq!(nes.cpu.steps, 0);
    assert!(nes.bus.joypad1.down.is_empty());
}

#[test]
fn loaded_session_runs_the_console() {
    let mut session = Session::new();
    session.load_rom(Some(console(vec![(0x4014, 0x42)]))).unwrap();
    assert_eq!(session.reset(), Ok(()));
    let frame = session.render().unwrap();
    assert_eq!(frame.len(), FRAME_WIDTH * FRAME_HEIGHT);
    assert_eq!(session.player2_keydown(JoypadKey::Select), Ok(()));
    assert_eq!(session.player2_keyup(JoypadKey::Select), Ok(()));
    assert_eq!(session.player1_keydown(JoypadKey::B), Ok(()));
    assert_eq!(session.player1_keyup(JoypadKey::B), Ok(()));
    let nes = session.nes.as_ref().unwrap();
    assert_eq!(nes.cpu.steps, 89342);
    assert_eq!(nes.cpu.pc, 0x8000);
    assert!(nes.bus.ppu_bus.oam.iter().all(|b| *b == 0x42));
}

#[test]
fn console_faults_are_reported_as_bus_faults() {
    let mut session = Session::new();
    let mut nes = console(Vec::new());
    nes.cpu.fail_at = Some(0);
    session.load_rom(Some(nes)).unwrap();
    assert_eq!(session.tick(), Err(EmuError::BusFault));
    assert_eq!(session.render(), Err(EmuError::BusFault));
    assert!(session.is_loaded());
    assert_eq!(report(Ok::<u8, BusFault>(7)), Ok(7));
    assert_eq!(report(Err::<u8, BusFault>(BusFault)), Err(EmuError::BusFault));
}

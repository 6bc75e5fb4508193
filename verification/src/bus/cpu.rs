use vstd::prelude::*;

use crate::bus::ppu::{PpuBus, PpuBusEvent, PpuBusView};
use crate::decode::{cpu_target, decode_cpu, CpuTarget, UNMAPPED_READ};
use crate::device::{AudioUnit, Controller, Mapper, PictureUnit};
use crate::dma::{
    dma_stall, oam_after_dma, oam_after_full_dma, oam_index, page_address, stall_cycles, DMA_LEN,
};
use crate::error::BusFault;
use crate::word::{high_byte, join, low_byte, word_of};

verus! {

/// A message to the CPU-side bus.
#[derive(Clone, Copy, Debug, PartialEq, Eq, Structural)]
pub enum CpuBusEvent {
    /// Begin an OAM DMA from the given CPU address to the given OAM offset.
    RequestDma(u16, u8),
}

/// The CPU-side bus: work RAM, the DMA stall counter, and every device that
/// the processor reaches, the picture-side bus among them.
pub struct CpuBus<M, P, A, J> {
    pub mmc: M,
    pub ppu: P,
    pub ppu_bus: PpuBus,
    pub apu: A,
    pub joypad1: J,
    pub joypad2: J,
    /// The bus-cycle counter, of which a DMA reads the parity.
    pub cycles: u8,
    /// The cycles that the processor still owes for DMA.
    pub stalls: u16,
    pub wram: [u8; 0x0800],
}

/// What a CPU-side bus holds.
pub struct CpuBusView<M, P, A, J> {
    pub mmc: M,
    pub ppu: P,
    pub ppu_bus: PpuBusView,
    pub apu: A,
    pub joypad1: J,
    pub joypad2: J,
    pub cycles: u8,
    pub stalls: u16,
    pub wram: Seq<u8>,
}

impl<M, P, A, J> CpuBusView<M, P, A, J> {
    /// Work RAM and the memories of the picture-side bus have their sizes.
    pub open spec fn wf(self) -> bool {
        &&& self.wram.len() == 0x0800
        &&& self.ppu_bus.wf()
    }

    /// The byte that a read of `addr` gives, where `addr` resolves to work
    /// RAM.
    pub open spec fn ram_read(self, addr: u16) -> Option<u8> {
        match cpu_target(addr) {
            CpuTarget::WorkRam(i) => Some(self.wram[i as int]),
            _ => None,
        }
    }

    /// The bus after a write of `data` to `addr`, where `addr` resolves to
    /// work RAM or to nothing.
    pub open spec fn ram_write(self, addr: u16, data: u8) -> Self {
        match cpu_target(addr) {
            CpuTarget::WorkRam(i) => CpuBusView { wram: self.wram.update(i as int, data), ..self },
            _ => self,
        }
    }

    /// Whether the 256 bytes from `addr` on all lie in work RAM or its
    /// mirrors.
    pub open spec fn page_in_ram(addr: u16) -> bool {
        addr <= 0x1F00
    }

    /// The 256 bytes that reads from `addr` on give, where they all lie in
    /// work RAM or its mirrors.
    pub open spec fn ram_page(self, addr: u16) -> Seq<u8> {
        Seq::new(0x0100, |i: int| self.wram[(addr + i) % 0x0800])
    }

    /// Whether the oldest DMA request can be served: whether the stall it
    /// costs still fits the counter.
    pub open spec fn stall_fits(self) -> bool {
        self.stalls + dma_stall(self.cycles) <= u16::MAX
    }

    /// Whether a DMA request waits whose stall fits the counter.
    pub open spec fn dma_ready(self) -> bool {
        self.ppu_bus.requests.len() > 0 && self.stall_fits()
    }

    /// Whether a DMA request waits whose stall does not fit the counter.
    pub open spec fn dma_blocked(self) -> bool {
        self.ppu_bus.requests.len() > 0 && !self.stall_fits()
    }

    /// The bus without the oldest DMA request.
    pub open spec fn without_request(self) -> Self {
        CpuBusView { ppu_bus: self.ppu_bus.take_request(), ..self }
    }

    /// The bus after a DMA payload was sent and its stall charged.
    pub open spec fn with_payload(self, data: Seq<u8>, oam_addr: u8) -> Self {
        CpuBusView {
            stalls: (self.stalls + dma_stall(self.cycles)) as u16,
            ppu_bus: self.ppu_bus.send(data, oam_addr),
            ..self
        }
    }

    /// The bus with the interrupt line of the picture unit low.
    pub open spec fn without_nmi(self) -> Self {
        CpuBusView { ppu_bus: PpuBusView { nmi: false, ..self.ppu_bus }, ..self }
    }
}

/// Whether a read of `addr` leaves the bus as it is: work RAM answers it, or
/// the cartridge, which a read does not change, or nothing.
pub open spec fn read_is_direct(addr: u16) -> bool {
    cpu_target(addr) is WorkRam || cpu_target(addr) is Cartridge || cpu_target(addr) is Unmapped
}

/// Whether a write to `addr` is handed to a device, which decides its outcome.
pub open spec fn write_decided_by_device(addr: u16) -> bool {
    !(cpu_target(addr) is WorkRam) && !(cpu_target(addr) is Unmapped)
}

/// Whether all reads of the 256 bytes from `addr` on are direct.
pub open spec fn page_is_direct(addr: u16) -> bool {
    forall|i: int| 0 <= i < 0x0100 ==> #[trigger] read_is_direct(page_address(addr, i))
}

impl<M: Mapper, P, A, J> CpuBusView<M, P, A, J> {
    /// Whether `res` can be the outcome of a read of `addr`, as far as the
    /// bus and the cartridge decide it: it is the byte that work RAM holds
    /// there, or [`UNMAPPED_READ`] where `addr` resolves to nothing, or, where
    /// `addr` resolves to the cartridge, an answer of the cartridge to a read
    /// at the address that the target names. Where `addr` resolves to another
    /// device, that device alone decides.
    pub open spec fn read_gives(self, addr: u16, res: Result<u8, BusFault>) -> bool {
        match cpu_target(addr) {
            CpuTarget::WorkRam(i) => res == Ok::<u8, BusFault>(self.wram[i as int]),
            CpuTarget::Cartridge(a) => call_ensures(M::read_cpu, (&self.mmc, a), res),
            CpuTarget::Unmapped => res == Ok::<u8, BusFault>(UNMAPPED_READ),
            _ => true,
        }
    }

    /// Whether `data` can be what reads of the 256 bytes from `addr` on
    /// give, one after the other.
    pub open spec fn page_gives(self, addr: u16, data: Seq<u8>) -> bool {
        &&& data.len() == 0x0100
        &&& forall|i: int|
            0 <= i < 0x0100 ==> #[trigger] self.read_gives(page_address(addr, i), Ok(data[i]))
    }

    /// Whether a read of one of the 256 bytes from `addr` on can fault.
    pub open spec fn page_can_fault(self, addr: u16) -> bool {
        exists|i: int|
            0 <= i < 0x0100 && #[trigger] self.read_gives(page_address(addr, i), Err(BusFault))
    }

    /// Whether `post` can be the bus after it served the oldest request, a
    /// DMA from `addr` to `oam_addr`: the bytes that the reads gave are the
    /// newest payload, and the stall is charged. Where all the reads are
    /// direct, the request has left its queue and nothing else has changed.
    pub open spec fn dma_served(self, post: Self, addr: u16, oam_addr: u8) -> bool {
        &&& post.ppu_bus.payloads.len() > 0
        &&& post.ppu_bus.payloads.last().1 == oam_addr
        &&& self.page_gives(addr, post.ppu_bus.payloads.last().0)
        &&& post.stalls == self.stalls + dma_stall(self.cycles)
        &&& page_is_direct(addr) ==> post == (CpuBusView {
            stalls: post.stalls,
            ppu_bus: self.ppu_bus.serve_request(post.ppu_bus.payloads.last().0),
            ..self
        })
    }

    /// Whether `post` can be the bus after a read faulted while it served
    /// the oldest request, a DMA from `addr`: no stall is charged and no
    /// payload sent. Where all the reads are direct, the request has left its
    /// queue and nothing else has changed.
    pub open spec fn dma_faulted(self, post: Self, addr: u16) -> bool {
        &&& self.page_can_fault(addr)
        &&& post.stalls == self.stalls
        &&& page_is_direct(addr) ==> post == self.without_request()
    }

    /// Whether the bus `post` differs from `self` at most in what a read of
    /// `addr` hands to the device that it resolves to.
    pub open spec fn read_touches(self, post: Self, addr: u16) -> bool {
        match cpu_target(addr) {
            CpuTarget::Picture(_) => post == (CpuBusView {
                ppu: post.ppu,
                ppu_bus: post.ppu_bus,
                ..self
            }),
            CpuTarget::Audio(_) => post == (CpuBusView { apu: post.apu, ..self }),
            CpuTarget::Controller1 => post == (CpuBusView { joypad1: post.joypad1, ..self }),
            CpuTarget::Controller2 => post == (CpuBusView { joypad2: post.joypad2, ..self }),
            _ => post == self,
        }
    }

    /// Whether the bus `post` differs from `self` at most in what a write of
    /// `data` to `addr` changes in work RAM and hands to the device that it
    /// resolves to.
    pub open spec fn write_touches(self, post: Self, addr: u16, data: u8) -> bool {
        match cpu_target(addr) {
            CpuTarget::Picture(_) => post == (CpuBusView {
                ppu: post.ppu,
                ppu_bus: post.ppu_bus,
                mmc: post.mmc,
                ..self
            }),
            CpuTarget::Audio(_) => post == (CpuBusView { apu: post.apu, ..self }),
            CpuTarget::Controller1 => post == (CpuBusView { joypad1: post.joypad1, ..self }),
            CpuTarget::Controller2 => post == (CpuBusView { joypad2: post.joypad2, ..self }),
            CpuTarget::Cartridge(_) => post == (CpuBusView { mmc: post.mmc, ..self }),
            _ => post == self.ram_write(addr, data),
        }
    }
}

impl<M, P, A, J> View for CpuBus<M, P, A, J> {
    type V = CpuBusView<M, P, A, J>;

    open spec fn view(&self) -> CpuBusView<M, P, A, J> {
        CpuBusView {
            mmc: self.mmc,
            ppu: self.ppu,
            ppu_bus: self.ppu_bus@,
            apu: self.apu,
            joypad1: self.joypad1,
            joypad2: self.joypad2,
            cycles: self.cycles,
            stalls: self.stalls,
            wram: self.wram@,
        }
    }
}

impl<M: Mapper, P: PictureUnit, A: AudioUnit, J: Controller> CpuBus<M, P, A, J> {
    /// The memories of a bus have their sizes.
    pub proof fn view_wf(&self)
        ensures
            self@.wf(),
    {
    }

    /// A bus over the given devices, with both counters at 0 and work RAM
    /// filled with 0xFF.
    pub fn new(mmc: M, ppu: P, ppu_bus: PpuBus, apu: A, joypad1: J, joypad2: J) -> (bus: Self)
        ensures
            bus@.mmc == mmc,
            bus@.ppu == ppu,
            bus@.ppu_bus == ppu_bus@,
            bus@.apu == apu,
            bus@.joypad1 == joypad1,
            bus@.joypad2 == joypad2,
            bus@.cycles == 0,
            bus@.stalls == 0,
            bus@.wram.len() == 0x0800,
            forall|i: int| 0 <= i < 0x0800 ==> bus@.wram[i] == 0xFF,
    {
        CpuBus {
            mmc,
            ppu,
            ppu_bus,
            apu,
            joypad1,
            joypad2,
            cycles: 0,
            stalls: 0,
            wram: [0xFF;0x0800],
        }
    }

    /// Serves the oldest DMA request, if there is one: takes it from its
    /// queue, reads the 256 bytes from its source address on as
    /// [`CpuBus::read_page`] gives them, sends them to the picture-side bus,
    /// and charges the stall. A fault of a read ends the tick with nothing
    /// sent or charged. Faults, before it touches anything, where the stall
    /// does not fit the counter.
    pub fn tick(&mut self) -> (res: Result<(), BusFault>)
        ensures
            final(self)@.wram == old(self)@.wram,
            final(self)@.cycles == old(self)@.cycles,
            final(self)@.mmc == old(self)@.mmc,
            old(self)@.ppu_bus.requests.len() == 0 ==> res is Ok && final(self)@ == old(self)@,
            old(self)@.dma_blocked() ==> res is Err && final(self)@ == old(self)@,
            old(self)@.dma_ready() ==> match old(self)@.ppu_bus.requests[0] {
                CpuBusEvent::RequestDma(addr, oam_addr) => {
                    &&& exists|bus: &mut Self, page: Result<Vec<u8>, BusFault>|
                        {
                            &&& (*bus)@ == old(self)@.without_request()
                            &&& #[trigger] call_ensures(Self::read_page, (bus, addr), page)
                            &&& match page {
                                Ok(data) => res is Ok
                                    && final(self)@ == (*final(bus))@.with_payload(data@, oam_addr),
                                Err(_) => res is Err && final(self)@ == (*final(bus))@,
                            }
                        }
                    &&& match res {
                        Ok(_) => old(self)@.dma_served(final(self)@, addr, oam_addr),
                        Err(_) => old(self)@.dma_faulted(final(self)@, addr),
                    }
                },
            },
    {
        if self.ppu_bus.cpu_bus_sender.len() == 0 {
            return Ok(());
        }
        let stall: u16 = stall_cycles(self.cycles);
        if self.stalls > u16::MAX - stall {
            return Err(BusFault);
        }
        match self.ppu_bus.cpu_bus_sender.pop_front() {
            Some(CpuBusEvent::RequestDma(addr, oam_addr)) => {
                assert(self@.ppu_bus.requests =~= old(self)@.ppu_bus.requests.drop_first());
                let ghost taken = self@;
                proof {
                    taken.page_depends_on_memory(old(self)@, addr);
                }
                let page = self.read_page(addr);
                let data: Vec<u8> = match page {
                    Ok(data) => data,
                    Err(fault) => {
                        return Err(fault);
                    },
                };
                let ghost sent = self@.ppu_bus.payloads;
                self.ppu_bus.event.push_back(PpuBusEvent::Dma(data, oam_addr));
                self.stalls += stall;
                proof {
                    assert(self@.ppu_bus.payloads =~= sent.push((data@, oam_addr)));
                    if page_is_direct(addr) {
                        assert(self@.ppu_bus == old(self)@.ppu_bus.serve_request(data@));
                    }
                }
                Ok(())
            },
            None => Ok(()),
        }
    }

    /// Reads the 256 bytes from `addr` on, one after the other, each as
    /// [`CpuBus::read`] gives it, and stops at the first fault. The address
    /// after 0xFFFF is 0.
    pub fn read_page(&mut self, addr: u16) -> (res: Result<Vec<u8>, BusFault>)
        ensures
            exists|states: Seq<Self>, outcomes: Seq<Result<u8, BusFault>>|
                #![trigger states.len(), outcomes.len()]
                {
                    &&& states.len() == outcomes.len() + 1
                    &&& states[0] == *old(self)
                    &&& states.last() == *final(self)
                    &&& forall|k: int|
                        #![trigger outcomes[k]]
                        0 <= k < outcomes.len() ==> (outcomes[k] is Ok || k == outcomes.len() - 1)
                            && exists|bus: &mut Self|
                            {
                                &&& *bus == states[k]
                                &&& *final(bus) == states[k + 1]
                                &&& #[trigger] call_ensures(
                                    Self::read,
                                    (bus, page_address(addr, k)),
                                    outcomes[k],
                                )
                            }
                    &&& match res {
                        Ok(data) => {
                            &&& outcomes.len() == 0x0100
                            &&& data@.len() == 0x0100
                            &&& forall|k: int|
                                0 <= k < 0x0100 ==> outcomes[k] == Ok::<u8, BusFault>(
                                    #[trigger] data@[k],
                                )
                        },
                        Err(_) => 0 < outcomes.len() <= 0x0100 && outcomes.last() is Err,
                    }
                },
            final(self)@.wram == old(self)@.wram,
            final(self)@.cycles == old(self)@.cycles,
            final(self)@.stalls == old(self)@.stalls,
            final(self)@.mmc == old(self)@.mmc,
            match res {
                Ok(data) => old(self)@.page_gives(addr, data@),
                Err(_) => old(self)@.page_can_fault(addr),
            },
            page_is_direct(addr) ==> final(self)@ == old(self)@,
    {
        let mut data: Vec<u8> = Vec::with_capacity(DMA_LEN);
        let ghost mut states: Seq<Self> = seq![*self];
        let ghost mut outcomes: Seq<Result<u8, BusFault>> = seq![];
        let mut i: usize = 0;
        let mut faulted: bool = false;
        while i < DMA_LEN && !faulted
            invariant
                i <= DMA_LEN,
                data@.len() == (if faulted {
                    i - 1
                } else {
                    i as int
                }),
                faulted ==> i > 0 && outcomes.last() is Err && old(self)@.page_can_fault(addr),
                outcomes.len() == i,
                states.len() == i + 1,
                states[0] == *old(self),
                states.last() == *self,
                self@.wram == old(self)@.wram,
                self@.cycles == old(self)@.cycles,
                self@.stalls == old(self)@.stalls,
                self@.mmc == old(self)@.mmc,
                page_is_direct(addr) ==> self@ == old(self)@,
                forall|k: int|
                    #![trigger outcomes[k]]
                    0 <= k < outcomes.len() ==> (outcomes[k] is Ok || k == outcomes.len() - 1)
                        && exists|bus: &mut Self|
                        {
                            &&& *bus == states[k]
                            &&& *final(bus) == states[k + 1]
                            &&& #[trigger] call_ensures(
                                Self::read,
                                (bus, page_address(addr, k)),
                                outcomes[k],
                            )
                        },
                forall|k: int|
                    0 <= k < data@.len() ==> outcomes[k] == Ok::<u8, BusFault>(#[trigger] data@[k]),
                forall|k: int|
                    0 <= k < data@.len() ==> #[trigger] old(self)@.read_gives(
                        page_address(addr, k),
                        Ok(data@[k]),
                    ),
            decreases DMA_LEN - i,
        {
            let at: u16 = ((addr as usize + i) % 0x1_0000) as u16;
            let ghost before = *self;
            let ghost before_states = states;
            let ghost before_outcomes = outcomes;
            let ghost before_data = data@;
            let outcome = self.read(at);
            if outcome.is_ok() {
                data.push(outcome.unwrap());
            } else {
                faulted = true;
            }
            i += 1;
            proof {
                states = before_states.push(*self);
                outcomes = before_outcomes.push(outcome);
                assert(at == page_address(addr, i - 1));
                assert(page_is_direct(addr) ==> read_is_direct(page_address(addr, i - 1)));
                assert(old(self)@.read_gives(at, outcome)) by {
                    assert(before@.read_gives(at, outcome));
                }
                if faulted {
                    assert(outcome->Err_0 == BusFault);
                    assert(old(self)@.read_gives(page_address(addr, i - 1), Err(BusFault)));
                }
                assert forall|k: int|
                    #![trigger outcomes[k]]
                    0 <= k < outcomes.len() implies (outcomes[k] is Ok || k == outcomes.len() - 1)
                    && exists|bus: &mut Self|
                    {
                        &&& *bus == states[k]
                        &&& *final(bus) == states[k + 1]
                        &&& #[trigger] call_ensures(
                            Self::read,
                            (bus, page_address(addr, k)),
                            outcomes[k],
                        )
                    } by {
                    if k < i - 1 {
                        assert(states[k] == before_states[k]);
                        assert(states[k + 1] == before_states[k + 1]);
                        assert(outcomes[k] == before_outcomes[k]);
                        assert(before_outcomes[k] == Ok::<u8, BusFault>(before_data[k]));
                    } else {
                        assert(states[k] == before);
                        assert(states[k + 1] == *self);
                        assert(outcomes[k] == outcome);
                    }
                }
            }
        }
        if faulted {
            Err(BusFault)
        } else {
            Ok(data)
        }
    }

    /// Reports a pending interrupt of the picture unit, once: the line is
    /// low afterwards.
    pub fn nmi(&mut self) -> (pending: bool)
        ensures
            pending == old(self)@.ppu_bus.nmi,
            final(self)@ == old(self)@.without_nmi(),
    {
        if self.ppu_bus.nmi {
            self.ppu_bus.nmi = false;
            return true;
        }
        false
    }

    /// Reads the word whose low byte is at `addr` and whose high byte is at
    /// the next address, which is 0 after 0xFFFF: the two bytes are read in
    /// that order, each as [`CpuBus::read`] gives it. A fault at the low byte
    /// leaves the high byte unread.
    pub fn read_word(&mut self, addr: u16) -> (res: Result<u16, BusFault>)
        ensures
            (exists|bus: &mut Self, low: Result<u8, BusFault>|
                {
                    &&& low is Err && res is Err
                    &&& *bus == *old(self) && *final(bus) == *final(self)
                    &&& #[trigger] call_ensures(Self::read, (bus, addr), low)
                }) || (exists|
                bus: &mut Self,
                low: Result<u8, BusFault>,
                bus2: &mut Self,
                high: Result<u8, BusFault>,
            |
                {
                    &&& *bus == *old(self)
                    &&& #[trigger] call_ensures(Self::read, (bus, addr), low)
                    &&& *bus2 == *final(bus) && *final(bus2) == *final(self)
                    &&& #[trigger] call_ensures(Self::read, (bus2, page_address(addr, 1)), high)
                    &&& match (low, high) {
                        (Ok(l), Ok(h)) => res == Ok::<u16, BusFault>(word_of(l, h)),
                        (Ok(_), Err(_)) => res is Err,
                        _ => false,
                    }
                }),
            final(self)@.wram == old(self)@.wram,
            final(self)@.cycles == old(self)@.cycles,
            final(self)@.stalls == old(self)@.stalls,
            final(self)@.mmc == old(self)@.mmc,
            match res {
                Ok(word) => {
                    &&& old(self)@.read_gives(addr, Ok((word % 256) as u8))
                    &&& old(self)@.read_gives(page_address(addr, 1), Ok((word / 256) as u8))
                },
                Err(_) => {
                    ||| old(self)@.read_gives(addr, Err(BusFault))
                    ||| old(self)@.read_gives(page_address(addr, 1), Err(BusFault))
                },
            },
            read_is_direct(addr) && read_is_direct(page_address(addr, 1))
                ==> final(self)@ == old(self)@,
    {
        let next: u16 = addr.wrapping_add(1);
        assert(next == page_address(addr, 1));
        let first = self.read(addr);
        let low: u8 = match first {
            Ok(low) => low,
            Err(fault) => {
                return Err(fault);
            },
        };
        let ghost between = self@;
        let second = self.read(next);
        assert(old(self)@.read_gives(next, second)) by {
            assert(between.read_gives(next, second));
        }
        match second {
            Ok(high) => Ok(join(low, high)),
            Err(fault) => Err(fault),
        }
    }

    /// Reads the byte at `addr`: from work RAM, or from the device that the
    /// address resolves to, which is asked once and whose answer is the
    /// outcome; [`UNMAPPED_READ`] where the address resolves to nothing. The
    /// picture unit is handed the picture-side bus and the cartridge to read
    /// from.
    pub fn read(&mut self, addr: u16) -> (res: Result<u8, BusFault>)
        ensures
            final(self)@.wram == old(self)@.wram,
            final(self)@.cycles == old(self)@.cycles,
            final(self)@.stalls == old(self)@.stalls,
            final(self)@.mmc == old(self)@.mmc,
            old(self)@.read_gives(addr, res),
            old(self)@.read_touches(final(self)@, addr),
            match cpu_target(addr) {
                CpuTarget::WorkRam(i) => res == Ok::<u8, BusFault>(old(self)@.wram[i as int]),
                CpuTarget::Cartridge(a) => call_ensures(M::read_cpu, (&old(self).mmc, a), res),
                CpuTarget::Picture(reg) => exists|ppu: &mut P, bus: &mut PpuBus|
                    {
                        &&& *ppu == old(self).ppu && *bus == old(self).ppu_bus
                        &&& *final(ppu) == final(self).ppu && *final(bus) == final(self).ppu_bus
                        &&& #[trigger] call_ensures(
                            P::read_register::<M>,
                            (ppu, reg, bus, &old(self).mmc),
                            res,
                        )
                    },
                CpuTarget::Audio(reg) => exists|apu: &mut A|
                    {
                        &&& *apu == old(self).apu
                        &&& *final(apu) == final(self).apu
                        &&& #[trigger] call_ensures(A::read_register, (apu, reg), res)
                    },
                CpuTarget::Controller1 => exists|pad: &mut J|
                    {
                        &&& *pad == old(self).joypad1
                        &&& *final(pad) == final(self).joypad1
                        &&& #[trigger] call_ensures(J::read, (pad,), res)
                    },
                CpuTarget::Controller2 => exists|pad: &mut J|
                    {
                        &&& *pad == old(self).joypad2
                        &&& *final(pad) == final(self).joypad2
                        &&& #[trigger] call_ensures(J::read, (pad,), res)
                    },
                CpuTarget::Unmapped => res == Ok::<u8, BusFault>(UNMAPPED_READ),
            },
    {
        match decode_cpu(addr) {
            CpuTarget::WorkRam(i) => Ok(self.wram[i as usize]),
            CpuTarget::Picture(reg) => self.ppu.read_register(reg, &mut self.ppu_bus, &self.mmc),
            CpuTarget::Audio(reg) => self.apu.read_register(reg),
            CpuTarget::Controller1 => self.joypad1.read(),
            CpuTarget::Controller2 => self.joypad2.read(),
            CpuTarget::Cartridge(a) => self.mmc.read_cpu(a),
            CpuTarget::Unmapped => Ok(UNMAPPED_READ),
        }
    }

    /// Writes the low byte of `data` to `addr` and the high byte to the next
    /// address, which is 0 after 0xFFFF, each as [`CpuBus::write`] does. A
    /// fault at the low byte leaves the high byte unwritten.
    pub fn write_word(&mut self, addr: u16, data: u16) -> (res: Result<(), BusFault>)
        ensures
            (exists|bus: &mut Self|
                {
                    &&& res is Err
                    &&& *bus == *old(self) && *final(bus) == *final(self)
                    &&& #[trigger] call_ensures(
                        Self::write,
                        (bus, addr, (data % 256) as u8),
                        res,
                    )
                }) || (exists|bus: &mut Self, low: Result<(), BusFault>, bus2: &mut Self|
                {
                    &&& low is Ok
                    &&& *bus == *old(self)
                    &&& #[trigger] call_ensures(
                        Self::write,
                        (bus, addr, (data % 256) as u8),
                        low,
                    )
                    &&& *bus2 == *final(bus) && *final(bus2) == *final(self)
                    &&& #[trigger] call_ensures(
                        Self::write,
                        (bus2, page_address(addr, 1), (data / 256) as u8),
                        res,
                    )
                }),
            final(self)@.cycles == old(self)@.cycles,
            final(self)@.stalls == old(self)@.stalls,
            !write_decided_by_device(addr) && !write_decided_by_device(
                page_address(addr, 1),
            ) ==> res is Ok && final(self)@ == old(self)@.ram_write(
                addr,
                (data % 256) as u8,
            ).ram_write(page_address(addr, 1), (data / 256) as u8),
    {
        let low: u8 = low_byte(data);
        let high: u8 = high_byte(data);
        let next: u16 = addr.wrapping_add(1);
        assert(low == (data % 256) as u8 && high == (data / 256) as u8 && next == page_address(
            addr,
            1,
        ));
        let first = self.write(addr, low);
        if first.is_err() {
            return first;
        }
        self.write(next, high)
    }

    /// Writes `data` to `addr`: to work RAM, or to the device that the
    /// address resolves to, which is asked once and whose answer is the
    /// outcome; nowhere where the address resolves to nothing. The picture
    /// unit is handed the picture-side bus and the cartridge to write to.
    pub fn write(&mut self, addr: u16, data: u8) -> (res: Result<(), BusFault>)
        ensures
            final(self)@.cycles == old(self)@.cycles,
            final(self)@.stalls == old(self)@.stalls,
            old(self)@.write_touches(final(self)@, addr, data),
            match cpu_target(addr) {
                CpuTarget::Picture(reg) => exists|ppu: &mut P, bus: &mut PpuBus, mmc: &mut M|
                    {
                        &&& *ppu == old(self).ppu && *bus == old(self).ppu_bus
                        &&& *mmc == old(self).mmc
                        &&& *final(ppu) == final(self).ppu && *final(bus) == final(self).ppu_bus
                            && *final(mmc) == final(self).mmc
                        &&& #[trigger] call_ensures(
                            P::write_register::<M>,
                            (ppu, reg, data, bus, mmc),
                            res,
                        )
                    },
                CpuTarget::Audio(reg) => exists|apu: &mut A|
                    {
                        &&& *apu == old(self).apu
                        &&& *final(apu) == final(self).apu
                        &&& #[trigger] call_ensures(A::write_register, (apu, reg, data), res)
                    },
                CpuTarget::Controller1 => exists|pad: &mut J|
                    {
                        &&& *pad == old(self).joypad1
                        &&& *final(pad) == final(self).joypad1
                        &&& #[trigger] call_ensures(J::write, (pad, data), res)
                    },
                CpuTarget::Controller2 => exists|pad: &mut J|
                    {
                        &&& *pad == old(self).joypad2
                        &&& *final(pad) == final(self).joypad2
                        &&& #[trigger] call_ensures(J::write, (pad, data), res)
                    },
                CpuTarget::Cartridge(a) => exists|mmc: &mut M|
                    {
                        &&& *mmc == old(self).mmc
                        &&& *final(mmc) == final(self).mmc
                        &&& #[trigger] call_ensures(M::write_cpu, (mmc, a, data), res)
                    },
                CpuTarget::WorkRam(_) => res is Ok,
                CpuTarget::Unmapped => res is Ok,
            },
    {
        match decode_cpu(addr) {
            CpuTarget::WorkRam(i) => {
                self.wram[i as usize] = data;
                Ok(())
            },
            CpuTarget::Picture(reg) => self.ppu.write_register(
                reg,
                data,
                &mut self.ppu_bus,
                &mut self.mmc,
            ),
            CpuTarget::Audio(reg) => self.apu.write_register(reg, data),
            CpuTarget::Controller1 => self.joypad1.write(data),
            CpuTarget::Controller2 => self.joypad2.write(data),
            CpuTarget::Cartridge(a) => self.mmc.write_cpu(a, data),
            CpuTarget::Unmapped => Ok(()),
        }
    }
}

impl<M: Mapper, P, A, J> CpuBusView<M, P, A, J> {
    /// What reads give depends on work RAM and the cartridge alone: two buses
    /// that agree on both have the same outcomes of every read that they
    /// decide, and so of every page.
    pub proof fn page_depends_on_memory(self, other: Self, addr: u16)
        requires
            self.wram == other.wram,
            self.mmc == other.mmc,
        ensures
            forall|a: u16, res: Result<u8, BusFault>|
                #[trigger] self.read_gives(a, res) == other.read_gives(a, res),
            forall|data: Seq<u8>| #[trigger]
                self.page_gives(addr, data) == other.page_gives(addr, data),
            self.page_can_fault(addr) == other.page_can_fault(addr),
    {
        assert forall|data: Seq<u8>| #[trigger]
            self.page_gives(addr, data) == other.page_gives(addr, data) by {
            if self.page_gives(addr, data) {
                assert forall|i: int| 0 <= i < 0x0100 implies #[trigger] other.read_gives(
                    page_address(addr, i),
                    Ok(data[i]),
                ) by {
                    assert(self.read_gives(page_address(addr, i), Ok(data[i])));
                }
            }
            if other.page_gives(addr, data) {
                assert forall|i: int| 0 <= i < 0x0100 implies #[trigger] self.read_gives(
                    page_address(addr, i),
                    Ok(data[i]),
                ) by {
                    assert(other.read_gives(page_address(addr, i), Ok(data[i])));
                }
            }
        }
        if self.page_can_fault(addr) {
            let i = choose|i: int|
                0 <= i < 0x0100 && #[trigger] self.read_gives(page_address(addr, i), Err(BusFault));
            assert(other.read_gives(page_address(addr, i), Err(BusFault)));
        }
        if other.page_can_fault(addr) {
            let i = choose|i: int|
                0 <= i < 0x0100 && #[trigger] other.read_gives(
                    page_address(addr, i),
                    Err(BusFault),
                );
            assert(self.read_gives(page_address(addr, i), Err(BusFault)));
        }
    }

    /// A page that lies in work RAM or its mirrors is read directly, never
    /// faults, and is what work RAM holds.
    pub proof fn ram_page_is_determined(self, addr: u16, data: Seq<u8>)
        requires
            Self::page_in_ram(addr),
        ensures
            page_is_direct(addr),
            !self.page_can_fault(addr),
            self.page_gives(addr, data) <==> data == self.ram_page(addr),
    {
        assert forall|i: int| 0 <= i < 0x0100 implies #[trigger] read_is_direct(
            page_address(addr, i),
        ) by {}
        if self.page_gives(addr, data) {
            assert forall|i: int| 0 <= i < 0x0100 implies data[i] == self.ram_page(addr)[i] by {
                assert(self.read_gives(page_address(addr, i), Ok(data[i])));
            }
            assert(data =~= self.ram_page(addr));
        }
    }
}

/// A DMA from work RAM lands in OAM as work RAM holds it. Where the one
/// request that waits names a page in work RAM or its mirrors, and no payload
/// waits, the bus that served it has sent the page, and the picture-side drain
/// that follows puts byte `i` of the page at the OAM index that `oam_index`
/// gives for the requested offset.
pub proof fn dma_from_work_ram<M: Mapper, P, A, J>(
    bus: CpuBusView<M, P, A, J>,
    served: CpuBusView<M, P, A, J>,
    addr: u16,
    oam_addr: u8,
)
    requires
        bus.wf(),
        bus.ppu_bus.requests == seq![CpuBusEvent::RequestDma(addr, oam_addr)],
        bus.ppu_bus.payloads.len() == 0,
        CpuBusView::<M, P, A, J>::page_in_ram(addr),
        bus.dma_served(served, addr, oam_addr),
    ensures
        served.ppu_bus.requests.len() == 0,
        served.ppu_bus.payloads == seq![(bus.ram_page(addr), oam_addr)],
        served.ppu_bus.tick().payloads.len() == 0,
        served.ppu_bus.tick().oam == oam_after_dma(bus.ppu_bus.oam, bus.ram_page(addr), oam_addr),
        forall|i: int|
            0 <= i < 0x0100 ==> #[trigger] served.ppu_bus.tick().oam[oam_index(oam_addr, i)]
                == bus.wram[(addr + i) % 0x0800],
{
    let data = served.ppu_bus.payloads.last().0;
    bus.ram_page_is_determined(addr, data);
    assert(served.ppu_bus.requests =~= Seq::empty());
    assert(served.ppu_bus.payloads =~= seq![(bus.ram_page(addr), oam_addr)]);
    assert(served.ppu_bus.tick().payloads =~= Seq::empty());
    assert forall|i: int| 0 <= i < 0x0100 implies #[trigger] served.ppu_bus.tick().oam[oam_index(
        oam_addr,
        i,
    )] == bus.wram[(addr + i) % 0x0800] by {
        oam_after_full_dma(bus.ppu_bus.oam, bus.ram_page(addr), oam_addr, i);
    }
}

/// What is written to work RAM through one address is read back through every
/// mirror of that address.
pub proof fn work_ram_round_trip<M, P, A, J>(
    bus: CpuBusView<M, P, A, J>,
    a: u16,
    b: u16,
    data: u8,
)
    requires
        bus.wf(),
        a < 0x2000,
        b < 0x2000,
        a % 0x0800 == b % 0x0800,
    ensures
        bus.ram_write(a, data).ram_read(b) == Some(data),
        bus.ram_write(a, data) == bus.ram_write(b, data),
        bus.ram_read(a) == bus.ram_read(b),
{
}

} // verus!

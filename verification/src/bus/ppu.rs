use std::collections::VecDeque;
use vstd::prelude::*;

use crate::bus::cpu::CpuBusEvent;
use crate::decode::{decode_ppu, ppu_target, sprite_palette_alias, PpuTarget, UNMAPPED_READ};
use crate::device::Mapper;
use crate::dma::{copy_into_oam, oam_after_dma, oam_after_full_dma, oam_index};
use crate::error::BusFault;
use crate::word::{high_byte, join, low_byte, word_of};

verus! {

/// A message to the picture-side bus.
#[derive(Debug)]
pub enum PpuBusEvent {
    /// The bytes of an OAM DMA, and the OAM offset they go to.
    Dma(Vec<u8>, u8),
}

impl View for PpuBusEvent {
    type V = (Seq<u8>, u8);

    open spec fn view(&self) -> (Seq<u8>, u8) {
        match *self {
            PpuBusEvent::Dma(data, oam_addr) => (data@, oam_addr),
        }
    }
}

/// The picture-side bus: video RAM, palette RAM and OAM, the interrupt line
/// of the picture unit, and the two queues that join the buses.
pub struct PpuBus {
    /// DMA payloads that the CPU-side bus has sent and this bus has not yet
    /// copied into OAM.
    pub event: VecDeque<PpuBusEvent>,
    /// DMA requests that this bus has sent and the CPU-side bus has not yet
    /// served.
    pub cpu_bus_sender: VecDeque<CpuBusEvent>,
    /// The interrupt line: set by the picture unit, cleared by the CPU-side
    /// bus when it reports the interrupt.
    pub nmi: bool,
    pub vram: [u8; 0x0800],
    pub palette: [u8; 0x0020],
    pub oam: [u8; 0x0100],
}

/// What a picture-side bus holds.
pub struct PpuBusView {
    pub payloads: Seq<(Seq<u8>, u8)>,
    pub requests: Seq<CpuBusEvent>,
    pub nmi: bool,
    pub vram: Seq<u8>,
    pub palette: Seq<u8>,
    pub oam: Seq<u8>,
}

impl PpuBusView {
    /// The three memories have their sizes.
    pub open spec fn wf(self) -> bool {
        &&& self.vram.len() == 0x0800
        &&& self.palette.len() == 0x0020
        &&& self.oam.len() == 0x0100
    }

    /// The bus after a DMA request was sent.
    pub open spec fn request_dma(self, cpu_addr: u16, oam_addr: u8) -> PpuBusView {
        PpuBusView {
            requests: self.requests.push(CpuBusEvent::RequestDma(cpu_addr, oam_addr)),
            ..self
        }
    }

    /// The bus after the CPU-side bus took the oldest request.
    pub open spec fn take_request(self) -> PpuBusView
        recommends
            self.requests.len() > 0,
    {
        PpuBusView { requests: self.requests.drop_first(), ..self }
    }

    /// The bus after the CPU-side bus sent it the payload `data` for
    /// `oam_addr`.
    pub open spec fn send(self, data: Seq<u8>, oam_addr: u8) -> PpuBusView {
        PpuBusView { payloads: self.payloads.push((data, oam_addr)), ..self }
    }

    /// The bus after the CPU-side bus took the oldest request and answered
    /// it with the payload `data`.
    pub open spec fn serve_request(self, data: Seq<u8>) -> PpuBusView
        recommends
            self.requests.len() > 0,
    {
        match self.requests[0] {
            CpuBusEvent::RequestDma(_, oam_addr) => self.take_request().send(data, oam_addr),
        }
    }

    /// The bus after it drained its queue once: the oldest payload, if there
    /// is one, is copied into OAM.
    pub open spec fn tick(self) -> PpuBusView {
        if self.payloads.len() == 0 {
            self
        } else {
            PpuBusView {
                payloads: self.payloads.drop_first(),
                oam: oam_after_dma(self.oam, self.payloads[0].0, self.payloads[0].1),
                ..self
            }
        }
    }

    /// The byte that a read of `addr` gives, where the bus itself holds it.
    pub open spec fn read(self, addr: u16) -> Option<u8> {
        match ppu_target(addr) {
            PpuTarget::Cartridge(_) => None,
            PpuTarget::Vram(i) => Some(self.vram[i as int]),
            PpuTarget::Palette(i) => Some(self.palette[i as int]),
            PpuTarget::Unmapped => Some(UNMAPPED_READ),
        }
    }

    /// Whether `res` can be the outcome of a read of `addr`: it is the byte
    /// that the bus holds there or, where `addr` resolves to the cartridge,
    /// an answer of `mapper` to a read at the address that the target names.
    pub open spec fn read_gives<M: Mapper>(
        self,
        mapper: &M,
        addr: u16,
        res: Result<u8, BusFault>,
    ) -> bool {
        match ppu_target(addr) {
            PpuTarget::Cartridge(a) => call_ensures(M::read_ppu, (mapper, a), res),
            _ => res == Ok::<u8, BusFault>(self.read(addr)->0),
        }
    }

    /// The bus after a write of `data` to `addr`.
    pub open spec fn write(self, addr: u16, data: u8) -> PpuBusView {
        match ppu_target(addr) {
            PpuTarget::Cartridge(_) => self,
            PpuTarget::Vram(i) => PpuBusView { vram: self.vram.update(i as int, data), ..self },
            PpuTarget::Palette(i) => PpuBusView {
                palette: self.palette.update(i as int, data),
                ..self
            },
            PpuTarget::Unmapped => self,
        }
    }
}

impl View for PpuBus {
    type V = PpuBusView;

    open spec fn view(&self) -> PpuBusView {
        PpuBusView {
            payloads: self.event@.map_values(|e: PpuBusEvent| e@),
            requests: self.cpu_bus_sender@,
            nmi: self.nmi,
            vram: self.vram@,
            palette: self.palette@,
            oam: self.oam@,
        }
    }
}

impl PpuBus {
    /// The memories of a bus have their sizes.
    pub proof fn view_wf(&self)
        ensures
            self@.wf(),
    {
    }

    /// A bus with empty queues, the interrupt line low, video RAM filled with
    /// 0xFF, and palette RAM and OAM filled with 0.
    pub fn new() -> (bus: Self)
        ensures
            bus@.wf(),
            bus@.payloads == Seq::<(Seq<u8>, u8)>::empty(),
            bus@.requests == Seq::<CpuBusEvent>::empty(),
            !bus@.nmi,
            forall|i: int| 0 <= i < 0x0800 ==> bus@.vram[i] == 0xFF,
            forall|i: int| 0 <= i < 0x0020 ==> bus@.palette[i] == 0,
            forall|i: int| 0 <= i < 0x0100 ==> bus@.oam[i] == 0,
    {
        let bus = PpuBus {
            event: VecDeque::new(),
            cpu_bus_sender: VecDeque::new(),
            nmi: false,
            vram: [0xFF;0x0800],
            palette: [0;0x0020],
            oam: [0;0x0100],
        };
        assert(bus@.payloads =~= Seq::<(Seq<u8>, u8)>::empty());
        bus
    }

    /// Drains the queue of payloads once: copies the oldest payload, if there
    /// is one, into OAM.
    pub fn tick(&mut self) -> (res: Result<(), BusFault>)
        ensures
            res is Ok,
            final(self)@ == old(self)@.tick(),
    {
        match self.event.pop_front() {
            Some(PpuBusEvent::Dma(data, oam_addr)) => {
                copy_into_oam(&mut self.oam, &data, oam_addr);
                assert(self@.payloads =~= old(self)@.payloads.drop_first());
            },
            None => {
                assert(self@.payloads =~= old(self)@.payloads);
            },
        }
        Ok(())
    }

    /// Asks the CPU-side bus for an OAM DMA from `cpu_addr` to `oam_addr`.
    /// The request is queued for that bus's next tick; nothing else changes.
    pub fn request_dma(&mut self, cpu_addr: u16, oam_addr: u8) -> (res: Result<(), BusFault>)
        ensures
            res is Ok,
            final(self)@ == old(self)@.request_dma(cpu_addr, oam_addr),
    {
        self.cpu_bus_sender.push_back(CpuBusEvent::RequestDma(cpu_addr, oam_addr));
        Ok(())
    }

    /// Reads the word whose low byte is at `addr` and whose high byte is at
    /// the next address: the two bytes are read in that order, and a fault at
    /// either is the outcome.
    pub fn read_word<M: Mapper>(&self, mapper: &M, addr: u16) -> (res: Result<u16, BusFault>)
        requires
            addr < 0xFFFF,
        ensures
            match res {
                Ok(word) => {
                    &&& self@.read_gives(mapper, addr, Ok((word % 256) as u8))
                    &&& self@.read_gives(mapper, (addr + 1) as u16, Ok((word / 256) as u8))
                },
                Err(_) => {
                    ||| self@.read_gives(mapper, addr, Err(BusFault))
                    ||| self@.read_gives(mapper, (addr + 1) as u16, Err(BusFault))
                },
            },
            self@.read(addr) is Some && self@.read((addr + 1) as u16) is Some ==> res == Ok::<
                u16,
                BusFault,
            >(word_of(self@.read(addr)->0, self@.read((addr + 1) as u16)->0)),
    {
        let low: u8 = self.read(mapper, addr)?;
        let high: u8 = self.read(mapper, addr + 1)?;
        Ok(join(low, high))
    }

    /// Reads the byte at `addr`: from the cartridge, from video RAM or from
    /// palette RAM; [`UNMAPPED_READ`] where the address resolves to none of
    /// them.
    pub fn read<M: Mapper>(&self, mapper: &M, addr: u16) -> (res: Result<u8, BusFault>)
        ensures
            self@.read_gives(mapper, addr, res),
    {
        match decode_ppu(addr) {
            PpuTarget::Cartridge(a) => mapper.read_ppu(a),
            PpuTarget::Vram(i) => Ok(self.vram[i as usize]),
            PpuTarget::Palette(i) => Ok(self.palette[i as usize]),
            PpuTarget::Unmapped => Ok(UNMAPPED_READ),
        }
    }

    /// Writes the low byte of `data` to `addr` and the high byte to the next
    /// address, each as [`PpuBus::write`] does. A fault at the low byte leaves
    /// the high byte unwritten.
    pub fn write_word<M: Mapper>(&mut self, mapper: &mut M, addr: u16, data: u16) -> (res: Result<
        (),
        BusFault,
    >)
        requires
            addr < 0xFFFF,
        ensures
            (exists|bus: &mut PpuBus, port: &mut M|
                {
                    &&& res is Err
                    &&& *bus == *old(self) && *port == *old(mapper)
                    &&& *final(bus) == *final(self) && *final(port) == *final(mapper)
                    &&& #[trigger] call_ensures(
                        Self::write::<M>,
                        (bus, port, addr, (data % 256) as u8),
                        res,
                    )
                }) || (exists|
                bus: &mut PpuBus,
                port: &mut M,
                low: Result<(), BusFault>,
                bus2: &mut PpuBus,
                port2: &mut M,
            |
                {
                    &&& low is Ok
                    &&& *bus == *old(self) && *port == *old(mapper)
                    &&& #[trigger] call_ensures(
                        Self::write::<M>,
                        (bus, port, addr, (data % 256) as u8),
                        low,
                    )
                    &&& *bus2 == *final(bus) && *port2 == *final(port)
                    &&& *final(bus2) == *final(self) && *final(port2) == *final(mapper)
                    &&& #[trigger] call_ensures(
                        Self::write::<M>,
                        (bus2, port2, (addr + 1) as u16, (data / 256) as u8),
                        res,
                    )
                }),
            res is Ok ==> final(self)@ == old(self)@.write(addr, (data % 256) as u8).write(
                (addr + 1) as u16,
                (data / 256) as u8,
            ),
            !(ppu_target(addr) is Cartridge) && !(ppu_target((addr + 1) as u16) is Cartridge)
                ==> res is Ok && *final(mapper) == *old(mapper),
    {
        let low: u8 = low_byte(data);
        let high: u8 = high_byte(data);
        let next: u16 = addr + 1;
        assert(low == (data % 256) as u8 && high == (data / 256) as u8);
        assert(next == (addr + 1) as u16);
        let first = self.write(mapper, addr, low);
        if first.is_err() {
            return first;
        }
        self.write(mapper, next, high)
    }

    /// Writes `data` to `addr`: to the cartridge, whose answer is the
    /// outcome, to video RAM or to palette RAM; nowhere where the address
    /// resolves to none of them.
    pub fn write<M: Mapper>(&mut self, mapper: &mut M, addr: u16, data: u8) -> (res: Result<
        (),
        BusFault,
    >)
        ensures
            final(self)@ == old(self)@.write(addr, data),
            match ppu_target(addr) {
                PpuTarget::Cartridge(a) => exists|port: &mut M|
                    {
                        &&& *port == *old(mapper)
                        &&& *final(port) == *final(mapper)
                        &&& #[trigger] call_ensures(M::write_ppu, (port, a, data), res)
                    },
                _ => res is Ok && *final(mapper) == *old(mapper),
            },
    {
        match decode_ppu(addr) {
            PpuTarget::Cartridge(a) => mapper.write_ppu(a, data),
            PpuTarget::Vram(i) => {
                self.vram[i as usize] = data;
                Ok(())
            },
            PpuTarget::Palette(i) => {
                self.palette[i as usize] = data;
                Ok(())
            },
            PpuTarget::Unmapped => Ok(()),
        }
    }
}

/// What is written to one of the four aliasing sprite-palette slots is read
/// back from the background slot 16 below, and the other way round: the two
/// addresses name one byte.
pub proof fn palette_alias_round_trip(bus: PpuBusView, addr: u16, data: u8)
    requires
        bus.wf(),
        sprite_palette_alias(addr),
    ensures
        bus.write(addr, data).read((addr - 0x0010) as u16) == Some(data),
        bus.write((addr - 0x0010) as u16, data).read(addr) == Some(data),
        bus.write(addr, data) == bus.write((addr - 0x0010) as u16, data),
        bus.read(addr) == bus.read((addr - 0x0010) as u16),
{
}

/// A DMA takes one tick to arrive. In the tick in which it is requested, with
/// both queues empty before, the request is queued and nothing else moves:
/// the picture-side drain of that tick changes nothing. In the next tick the
/// CPU-side bus answers the request with the payload `data`, and the
/// picture-side drain of that same tick copies it into OAM from the requested
/// offset on and leaves both queues empty.
pub proof fn dma_arrives_one_tick_late(bus: PpuBusView, cpu_addr: u16, oam_addr: u8, data: Seq<u8>)
    requires
        bus.wf(),
        bus.requests.len() == 0,
        bus.payloads.len() == 0,
    ensures
        bus.request_dma(cpu_addr, oam_addr).tick() == bus.request_dma(cpu_addr, oam_addr),
        bus.request_dma(cpu_addr, oam_addr).oam == bus.oam,
        bus.request_dma(cpu_addr, oam_addr).requests == seq![
            CpuBusEvent::RequestDma(cpu_addr, oam_addr),
        ],
        bus.request_dma(cpu_addr, oam_addr).serve_request(data).tick() == (PpuBusView {
            oam: oam_after_dma(bus.oam, data, oam_addr),
            ..bus
        }),
        data.len() == 0x0100 ==> forall|i: int|
            0 <= i < 0x0100 ==> #[trigger] bus.request_dma(cpu_addr, oam_addr).serve_request(
                data,
            ).tick().oam[oam_index(oam_addr, i)] == data[i],
{
    let asked = bus.request_dma(cpu_addr, oam_addr);
    assert(bus.requests =~= Seq::empty());
    assert(asked.requests =~= seq![CpuBusEvent::RequestDma(cpu_addr, oam_addr)]);
    let served = asked.serve_request(data);
    assert(served.requests =~= bus.requests);
    assert(served.payloads =~= seq![(data, oam_addr)]);
    assert(served.tick().payloads =~= bus.payloads);
    if data.len() == 0x0100 {
        assert forall|i: int| 0 <= i < 0x0100 implies #[trigger] served.tick().oam[oam_index(
            oam_addr,
            i,
        )] == data[i] by {
            oam_after_full_dma(bus.oam, data, oam_addr, i);
        }
    }
}

} // verus!

use vstd::prelude::*;

use crate::bus::{page_is_direct, CpuBus, CpuBusEvent, CpuBusView, PpuBus};
use crate::dma::{oam_after_dma, oam_after_full_dma, oam_index};
use crate::device::{AudioUnit, Controller, CpuEngine, JoypadKey, Mapper, PictureUnit};
use crate::error::BusFault;

verus! {

/// The steps of the master clock that make one video frame.
pub const TICKS_PER_FRAME: u32 = 89342;

/// The console: the processor and, behind the CPU-side bus, everything else.
pub struct Nes<C, M, P, A, J> {
    pub cpu: C,
    pub bus: CpuBus<M, P, A, J>,
}

/// What a console holds.
pub struct NesView<C, M, P, A, J> {
    pub cpu: C,
    pub bus: CpuBusView<M, P, A, J>,
}

impl<C, M, P, A, J> View for Nes<C, M, P, A, J> {
    type V = NesView<C, M, P, A, J>;

    open spec fn view(&self) -> NesView<C, M, P, A, J> {
        NesView { cpu: self.cpu, bus: self.bus@ }
    }
}

impl<C, M, P, A, J> NesView<C, M, P, A, J> {
    /// Whether the next tick faults before it changes anything: a DMA
    /// request waits and its stall does not fit the counter.
    pub open spec fn dma_blocked(self) -> bool {
        self.bus.dma_blocked()
    }

    /// Whether `self` is `before` but for the state of one controller: the
    /// first if `first` holds, else the second.
    pub open spec fn changed_at(self, before: Self, first: bool) -> bool {
        if first {
            self == (NesView {
                bus: CpuBusView { joypad1: self.bus.joypad1, ..before.bus },
                ..before
            })
        } else {
            self == (NesView {
                bus: CpuBusView { joypad2: self.bus.joypad2, ..before.bus },
                ..before
            })
        }
    }
}

impl<C: CpuEngine, M: Mapper, P: PictureUnit, A: AudioUnit, J: Controller> Nes<C, M, P, A, J> {
    /// Wires the devices together, with fresh buses and empty queues between
    /// them.
    pub fn new(cpu: C, mmc: M, ppu: P, apu: A, joypad1: J, joypad2: J) -> (nes: Self)
        ensures
            nes@.cpu == cpu,
            nes@.bus.mmc == mmc,
            nes@.bus.ppu == ppu,
            nes@.bus.apu == apu,
            nes@.bus.joypad1 == joypad1,
            nes@.bus.joypad2 == joypad2,
            nes@.bus.cycles == 0,
            nes@.bus.stalls == 0,
            nes@.bus.wf(),
            forall|i: int| 0 <= i < 0x0800 ==> nes@.bus.wram[i] == 0xFF,
            nes@.bus.ppu_bus.payloads == Seq::<(Seq<u8>, u8)>::empty(),
            nes@.bus.ppu_bus.requests == Seq::<CpuBusEvent>::empty(),
            !nes@.bus.ppu_bus.nmi,
            forall|i: int| 0 <= i < 0x0800 ==> nes@.bus.ppu_bus.vram[i] == 0xFF,
            forall|i: int| 0 <= i < 0x0020 ==> nes@.bus.ppu_bus.palette[i] == 0,
            forall|i: int| 0 <= i < 0x0100 ==> nes@.bus.ppu_bus.oam[i] == 0,
    {
        let ppu_bus = PpuBus::new();
        let bus = CpuBus::new(mmc, ppu, ppu_bus, apu, joypad1, joypad2);
        Nes { cpu, bus }
    }

    /// Resets the processor: the processor's own reset, handed the bus, is
    /// all that happens, and its answer is the outcome.
    pub fn reset(&mut self) -> (res: Result<(), BusFault>)
        ensures
            exists|cpu: &mut C, bus: &mut CpuBus<M, P, A, J>|
                {
                    &&& *cpu == old(self).cpu && *bus == old(self).bus
                    &&& *final(cpu) == final(self).cpu && *final(bus) == final(self).bus
                    &&& #[trigger] call_ensures(C::reset::<M, P, A, J>, (cpu, bus), res)
                },
    {
        self.cpu.reset(&mut self.bus)
    }

    /// Presses a button of the first controller. Nothing else changes.
    pub fn player1_keydown(&mut self, key: JoypadKey)
        ensures
            final(self)@.changed_at(old(self)@, true),
            exists|pad: &mut J, done: ()|
                {
                    &&& *pad == old(self).bus.joypad1
                    &&& *final(pad) == final(self).bus.joypad1
                    &&& #[trigger] call_ensures(J::keydown, (pad, key), done)
                },
    {
        self.bus.joypad1.keydown(key);
    }

    /// Releases a button of the first controller. Nothing else changes.
    pub fn player1_keyup(&mut self, key: JoypadKey)
        ensures
            final(self)@.changed_at(old(self)@, true),
            exists|pad: &mut J, done: ()|
                {
                    &&& *pad == old(self).bus.joypad1
                    &&& *final(pad) == final(self).bus.joypad1
                    &&& #[trigger] call_ensures(J::keyup, (pad, key), done)
                },
    {
        self.bus.joypad1.keyup(key);
    }

    /// Presses a button of the second controller. Nothing else changes.
    pub fn player2_keydown(&mut self, key: JoypadKey)
        ensures
            final(self)@.changed_at(old(self)@, false),
            exists|pad: &mut J, done: ()|
                {
                    &&& *pad == old(self).bus.joypad2
                    &&& *final(pad) == final(self).bus.joypad2
                    &&& #[trigger] call_ensures(J::keydown, (pad, key), done)
                },
    {
        self.bus.joypad2.keydown(key);
    }

    /// Releases a button of the second controller. Nothing else changes.
    pub fn player2_keyup(&mut self, key: JoypadKey)
        ensures
            final(self)@.changed_at(old(self)@, false),
            exists|pad: &mut J, done: ()|
                {
                    &&& *pad == old(self).bus.joypad2
                    &&& *final(pad) == final(self).bus.joypad2
                    &&& #[trigger] call_ensures(J::keyup, (pad, key), done)
                },
    {
        self.bus.joypad2.keyup(key);
    }

    /// The processor's half of a step of the master clock: the CPU-side bus
    /// drains its queue as [`CpuBus::tick`] does, then the processor steps,
    /// handed the bus. A fault of the drain leaves the processor unstepped.
    pub fn step_cpu(&mut self) -> (res: Result<(), BusFault>)
        ensures
            old(self)@.dma_blocked() ==> res is Err && final(self)@ == old(self)@,
            (exists|bus: &mut CpuBus<M, P, A, J>|
                {
                    &&& res is Err
                    &&& *bus == old(self).bus && *final(bus) == final(self).bus
                    &&& final(self).cpu == old(self).cpu
                    &&& #[trigger] call_ensures(CpuBus::<M, P, A, J>::tick, (bus,), res)
                }) || (exists|
                bus: &mut CpuBus<M, P, A, J>,
                drained: Result<(), BusFault>,
                cpu: &mut C,
                bus2: &mut CpuBus<M, P, A, J>,
            |
                {
                    &&& drained is Ok
                    &&& *bus == old(self).bus
                    &&& #[trigger] call_ensures(CpuBus::<M, P, A, J>::tick, (bus,), drained)
                    &&& *cpu == old(self).cpu && *bus2 == *final(bus)
                    &&& *final(cpu) == final(self).cpu && *final(bus2) == final(self).bus
                    &&& #[trigger] call_ensures(C::tick::<M, P, A, J>, (cpu, bus2), res)
                }),
    {
        let drained = self.bus.tick();
        if drained.is_err() {
            return drained;
        }
        self.cpu.tick(&mut self.bus)
    }

    /// The picture unit's half of a step of the master clock: the
    /// picture-side bus drains its queue as [`PpuBus::tick`] does, then the
    /// picture unit steps, handed that bus and the cartridge. Nothing else
    /// changes.
    pub fn step_picture(&mut self) -> (res: Result<(), BusFault>)
        ensures
            exists|ppu: &mut P, bus: &mut PpuBus, mmc: &mut M|
                {
                    &&& (*bus)@ == old(self)@.bus.ppu_bus.tick()
                    &&& *ppu == old(self).bus.ppu && *mmc == old(self).bus.mmc
                    &&& #[trigger] call_ensures(P::tick::<M>, (ppu, bus, mmc), res)
                    &&& final(self)@ == (NesView {
                        bus: CpuBusView {
                            ppu: *final(ppu),
                            ppu_bus: (*final(bus))@,
                            mmc: *final(mmc),
                            ..old(self)@.bus
                        },
                        ..old(self)@
                    })
                },
    {
        let _ = self.bus.ppu_bus.tick();
        self.bus.ppu.tick(&mut self.bus.ppu_bus, &mut self.bus.mmc)
    }

    /// One step of the master clock: the processor's half as
    /// [`Nes::step_cpu`] does it, then the picture unit's half as
    /// [`Nes::step_picture`] does it, so that what the processor writes in a
    /// step reaches the picture unit in that step. A fault of the first half
    /// leaves the second undone.
    pub fn tick(&mut self) -> (res: Result<(), BusFault>)
        ensures
            old(self)@.dma_blocked() ==> res is Err && final(self)@ == old(self)@,
            (exists|nes: &mut Self|
                {
                    &&& res is Err
                    &&& *nes == *old(self) && *final(nes) == *final(self)
                    &&& #[trigger] call_ensures(Self::step_cpu, (nes,), res)
                }) || (exists|nes: &mut Self, first: Result<(), BusFault>, nes2: &mut Self|
                {
                    &&& first is Ok
                    &&& *nes == *old(self)
                    &&& #[trigger] call_ensures(Self::step_cpu, (nes,), first)
                    &&& *nes2 == *final(nes) && *final(nes2) == *final(self)
                    &&& #[trigger] call_ensures(Self::step_picture, (nes2,), res)
                }),
    {
        let first = self.step_cpu();
        if first.is_err() {
            return first;
        }
        self.step_picture()
    }

    /// Runs the master clock for one frame, step by step as [`Nes::tick`]
    /// does, and then asks the picture unit for the frame, whose answer is
    /// the outcome. A fault of a step ends the run: there is a frame only if
    /// every step went through.
    pub fn render(&mut self) -> (res: Result<Vec<u8>, BusFault>)
        ensures
            exists|states: Seq<Self>, outcomes: Seq<Result<(), BusFault>>|
                #![trigger states.len(), outcomes.len()]
                {
                    &&& states.len() == outcomes.len() + 1
                    &&& 0 < outcomes.len() <= TICKS_PER_FRAME
                    &&& states[0] == *old(self)
                    &&& forall|k: int|
                        #![trigger outcomes[k]]
                        0 <= k < outcomes.len() ==> (outcomes[k] is Ok || k == outcomes.len() - 1)
                            && exists|nes: &mut Self|
                            {
                                &&& *nes == states[k]
                                &&& *final(nes) == states[k + 1]
                                &&& #[trigger] call_ensures(Self::tick, (nes,), outcomes[k])
                            }
                    &&& if outcomes.last() is Err {
                        res is Err && *final(self) == states.last()
                    } else {
                        outcomes.len() == TICKS_PER_FRAME && exists|ppu: &mut P|
                            {
                                &&& *ppu == states.last().bus.ppu
                                &&& #[trigger] call_ensures(P::render, (ppu,), res)
                                &&& final(self)@ == (NesView {
                                    bus: CpuBusView { ppu: *final(ppu), ..states.last()@.bus },
                                    ..states.last()@
                                })
                            }
                    }
                },
            old(self)@.dma_blocked() ==> res is Err && final(self)@ == old(self)@,
    {
        let ghost mut states: Seq<Self> = seq![*self];
        let ghost mut outcomes: Seq<Result<(), BusFault>> = seq![];
        let mut step: u32 = 0;
        let mut faulted: bool = false;
        while step < TICKS_PER_FRAME && !faulted
            invariant
                step <= TICKS_PER_FRAME,
                outcomes.len() == step,
                states.len() == step + 1,
                states[0] == *old(self),
                states.last() == *self,
                faulted ==> step > 0 && outcomes.last() is Err,
                !faulted && step > 0 ==> outcomes.last() is Ok,
                step > 0 ==> !old(self)@.dma_blocked() || (step == 1 && faulted
                    && self@ == old(self)@),
                forall|k: int|
                    #![trigger outcomes[k]]
                    0 <= k < outcomes.len() ==> (outcomes[k] is Ok || k == outcomes.len() - 1)
                        && exists|nes: &mut Self|
                        {
                            &&& *nes == states[k]
                            &&& *final(nes) == states[k + 1]
                            &&& #[trigger] call_ensures(Self::tick, (nes,), outcomes[k])
                        },
            decreases TICKS_PER_FRAME - step,
        {
            let ghost before = *self;
            let ghost before_states = states;
            let ghost before_outcomes = outcomes;
            let outcome = self.tick();
            if outcome.is_err() {
                faulted = true;
            }
            step += 1;
            proof {
                states = before_states.push(*self);
                outcomes = before_outcomes.push(outcome);
                assert forall|k: int|
                    #![trigger outcomes[k]]
                    0 <= k < outcomes.len() implies (outcomes[k] is Ok || k == outcomes.len() - 1)
                    && exists|nes: &mut Self|
                    {
                        &&& *nes == states[k]
                        &&& *final(nes) == states[k + 1]
                        &&& #[trigger] call_ensures(Self::tick, (nes,), outcomes[k])
                    } by {
                    if k < step - 1 {
                        assert(states[k] == before_states[k]);
                        assert(states[k + 1] == before_states[k + 1]);
                        assert(outcomes[k] == before_outcomes[k]);
                        if k == step - 2 {
                            assert(before_outcomes[k] == before_outcomes.last());
                        }
                    } else {
                        assert(states[k] == before);
                        assert(states[k + 1] == *self);
                        assert(outcomes[k] == outcome);
                    }
                }
            }
        }
        if faulted {
            Err(BusFault)
        } else {
            self.bus.ppu.render()
        }
    }
}

/// A DMA that waits is in OAM when the next tick is through. Of a processor
/// whose step leaves the queue of payloads and OAM as they are, and a picture
/// unit whose step leaves OAM as it is: where a tick starts with one request
/// waiting and no payload, the request names a page whose reads are direct,
/// and the tick goes through, OAM holds at its end what the copy of the page
/// makes of it, each byte of the page being what a read of its address gives,
/// and byte `i` stands at the index that `oam_index` gives for the requested
/// offset.
pub proof fn dma_lands_within_the_next_tick<
    C: CpuEngine,
    M: Mapper,
    P: PictureUnit,
    A: AudioUnit,
    J: Controller,
>(addr: u16, oam_addr: u8)
    requires
        page_is_direct(addr),
        forall|cpu: &mut C, bus: &mut CpuBus<M, P, A, J>, out: Result<(), BusFault>|
            #[trigger] call_ensures(C::tick::<M, P, A, J>, (cpu, bus), out) ==> {
                &&& (*final(bus))@.ppu_bus.payloads == (*bus)@.ppu_bus.payloads
                &&& (*final(bus))@.ppu_bus.oam == (*bus)@.ppu_bus.oam
            },
        forall|ppu: &mut P, bus: &mut PpuBus, mmc: &mut M, out: Result<(), BusFault>|
            #[trigger] call_ensures(P::tick::<M>, (ppu, bus, mmc), out) ==> (*final(bus))@.oam
                == (*bus)@.oam,
    ensures
        forall|nes: &mut Nes<C, M, P, A, J>, res: Result<(), BusFault>|
            #![trigger call_ensures(Nes::<C, M, P, A, J>::tick, (nes,), res)]
            {
                &&& call_ensures(Nes::<C, M, P, A, J>::tick, (nes,), res)
                &&& res is Ok
                &&& (*nes)@.bus.ppu_bus.requests == seq![CpuBusEvent::RequestDma(addr, oam_addr)]
                &&& (*nes)@.bus.ppu_bus.payloads.len() == 0
            } ==> exists|data: Seq<u8>|
                {
                    &&& (*nes)@.bus.page_gives(addr, data)
                    &&& #[trigger] oam_after_dma((*nes)@.bus.ppu_bus.oam, data, oam_addr)
                        == (*final(nes))@.bus.ppu_bus.oam
                    &&& forall|i: int|
                        0 <= i < 0x0100 ==> (*final(nes))@.bus.ppu_bus.oam[#[trigger] oam_index(
                            oam_addr,
                            i,
                        )] == data[i]
                },
{
    assert forall|oam: Seq<u8>, data: Seq<u8>, i: int|
        oam.len() == 0x0100 && data.len() == 0x0100 && 0 <= i < 0x0100
        implies #[trigger] oam_after_dma(oam, data, oam_addr)[oam_index(oam_addr, i)]
        == data[i] by {
        oam_after_full_dma(oam, data, oam_addr, i);
    }
}

/// A DMA that waits leaves both queues empty when the next tick is through.
/// Of a processor and a picture unit whose steps leave both queues as they
/// are: where a tick starts with one request waiting and no payload, the
/// request names a page whose reads are direct, and the tick goes through,
/// neither a request nor a payload waits at its end.
pub proof fn dma_is_through_within_the_next_tick<
    C: CpuEngine,
    M: Mapper,
    P: PictureUnit,
    A: AudioUnit,
    J: Controller,
>(addr: u16, oam_addr: u8)
    requires
        page_is_direct(addr),
        forall|cpu: &mut C, bus: &mut CpuBus<M, P, A, J>, out: Result<(), BusFault>|
            #[trigger] call_ensures(C::tick::<M, P, A, J>, (cpu, bus), out) ==> {
                &&& (*final(bus))@.ppu_bus.payloads == (*bus)@.ppu_bus.payloads
                &&& (*final(bus))@.ppu_bus.requests == (*bus)@.ppu_bus.requests
            },
        forall|ppu: &mut P, bus: &mut PpuBus, mmc: &mut M, out: Result<(), BusFault>|
            #[trigger] call_ensures(P::tick::<M>, (ppu, bus, mmc), out) ==> {
                &&& (*final(bus))@.payloads == (*bus)@.payloads
                &&& (*final(bus))@.requests == (*bus)@.requests
            },
    ensures
        forall|nes: &mut Nes<C, M, P, A, J>, res: Result<(), BusFault>|
            #![trigger call_ensures(Nes::<C, M, P, A, J>::tick, (nes,), res)]
            {
                &&& call_ensures(Nes::<C, M, P, A, J>::tick, (nes,), res)
                &&& res is Ok
                &&& (*nes)@.bus.ppu_bus.requests == seq![CpuBusEvent::RequestDma(addr, oam_addr)]
                &&& (*nes)@.bus.ppu_bus.payloads.len() == 0
            } ==> {
                &&& (*final(nes))@.bus.ppu_bus.requests.len() == 0
                &&& (*final(nes))@.bus.ppu_bus.payloads.len() == 0
            },
{
}

/// A request that is made during a tick is not served in that tick. Of a
/// processor and a picture unit whose steps leave the queue of payloads and
/// OAM as they are: where a tick starts with no request and no payload
/// waiting and goes through, OAM is at its end what it was, and no payload
/// waits, whatever requests the step of either unit has made.
pub proof fn dma_waits_for_the_next_tick<
    C: CpuEngine,
    M: Mapper,
    P: PictureUnit,
    A: AudioUnit,
    J: Controller,
>()
    requires
        forall|cpu: &mut C, bus: &mut CpuBus<M, P, A, J>, out: Result<(), BusFault>|
            #[trigger] call_ensures(C::tick::<M, P, A, J>, (cpu, bus), out) ==> {
                &&& (*final(bus))@.ppu_bus.payloads == (*bus)@.ppu_bus.payloads
                &&& (*final(bus))@.ppu_bus.oam == (*bus)@.ppu_bus.oam
            },
        forall|ppu: &mut P, bus: &mut PpuBus, mmc: &mut M, out: Result<(), BusFault>|
            #[trigger] call_ensures(P::tick::<M>, (ppu, bus, mmc), out) ==> {
                &&& (*final(bus))@.payloads == (*bus)@.payloads
                &&& (*final(bus))@.oam == (*bus)@.oam
            },
    ensures
        forall|nes: &mut Nes<C, M, P, A, J>, res: Result<(), BusFault>|
            #![trigger call_ensures(Nes::<C, M, P, A, J>::tick, (nes,), res)]
            {
                &&& call_ensures(Nes::<C, M, P, A, J>::tick, (nes,), res)
                &&& res is Ok
                &&& (*nes)@.bus.ppu_bus.requests.len() == 0
                &&& (*nes)@.bus.ppu_bus.payloads.len() == 0
            } ==> {
                &&& (*final(nes))@.bus.ppu_bus.oam == (*nes)@.bus.ppu_bus.oam
                &&& (*final(nes))@.bus.ppu_bus.payloads.len() == 0
            },
{
}

/// The frame of a console is the picture unit's. Of a picture unit that
/// hands out frames of `size` bytes: a frame that the console hands out has
/// `size` bytes, and one frame of steps of the master clock was run for it.
pub proof fn frame_is_the_picture_units<
    C: CpuEngine,
    M: Mapper,
    P: PictureUnit,
    A: AudioUnit,
    J: Controller,
>(size: nat)
    requires
        forall|ppu: &mut P, out: Result<Vec<u8>, BusFault>|
            #[trigger] call_ensures(P::render, (ppu,), out) ==> (out matches Ok(frame)
                ==> frame@.len() == size),
    ensures
        forall|nes: &mut Nes<C, M, P, A, J>, res: Result<Vec<u8>, BusFault>|
            #![trigger call_ensures(Nes::<C, M, P, A, J>::render, (nes,), res)]
            call_ensures(Nes::<C, M, P, A, J>::render, (nes,), res) ==> (res matches Ok(frame)
                ==> frame@.len() == size),
{
}

/// A second reset changes nothing where the processor's does not. Of a
/// processor whose reset, made on what a reset has left, leaves the
/// processor and the bus as they are: a reset of the console that is made on
/// what a reset has left leaves the console as it is.
pub proof fn reset_twice_is_reset_once<
    C: CpuEngine,
    M: Mapper,
    P: PictureUnit,
    A: AudioUnit,
    J: Controller,
>()
    requires
        forall|
            cpu: &mut C,
            bus: &mut CpuBus<M, P, A, J>,
            first: Result<(), BusFault>,
            cpu2: &mut C,
            bus2: &mut CpuBus<M, P, A, J>,
            second: Result<(), BusFault>,
        |
            #![trigger
                call_ensures(C::reset::<M, P, A, J>, (cpu, bus), first),
                call_ensures(C::reset::<M, P, A, J>, (cpu2, bus2), second),
            ]
            {
                &&& call_ensures(C::reset::<M, P, A, J>, (cpu, bus), first)
                &&& *cpu2 == *final(cpu) && *bus2 == *final(bus)
                &&& call_ensures(C::reset::<M, P, A, J>, (cpu2, bus2), second)
            } ==> *final(cpu2) == *cpu2 && *final(bus2) == *bus2,
    ensures
        forall|
            nes: &mut Nes<C, M, P, A, J>,
            first: Result<(), BusFault>,
            nes2: &mut Nes<C, M, P, A, J>,
            second: Result<(), BusFault>,
        |
            #![trigger
                call_ensures(Nes::<C, M, P, A, J>::reset, (nes,), first),
                call_ensures(Nes::<C, M, P, A, J>::reset, (nes2,), second),
            ]
            {
                &&& call_ensures(Nes::<C, M, P, A, J>::reset, (nes,), first)
                &&& *nes2 == *final(nes)
                &&& call_ensures(Nes::<C, M, P, A, J>::reset, (nes2,), second)
            } ==> *final(nes2) == *nes2,
{
}

} // verus!

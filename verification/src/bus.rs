//! The two buses of the console and the queues that join them.
pub mod cpu;
pub mod ppu;

pub use cpu::{
    dma_from_work_ram, page_is_direct, read_is_direct, work_ram_round_trip,
    write_decided_by_device, CpuBus, CpuBusEvent, CpuBusView,
};
pub use ppu::{
    dma_arrives_one_tick_late, palette_alias_round_trip, PpuBus, PpuBusEvent, PpuBusView,
};

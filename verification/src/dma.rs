use vstd::prelude::*;

verus! {

/// The number of bytes that one OAM DMA moves, and the size of OAM.
pub const DMA_LEN: usize = 0x0100;

/// The CPU cycles that a DMA costs when the bus-cycle counter reads `cycles`:
/// 513, and one more on an odd cycle.
pub open spec fn dma_stall(cycles: u8) -> u16 {
    if cycles % 2 == 0 {
        513
    } else {
        514
    }
}

/// The CPU address of byte `i` of the page that starts at `addr`. The
/// address wraps within 16 bits.
pub open spec fn page_address(addr: u16, i: int) -> u16 {
    ((addr + i) % 0x1_0000) as u16
}

/// The OAM index that byte `i` of a payload lands on when the copy starts at
/// `offset`. The index wraps within OAM.
pub open spec fn oam_index(offset: u8, i: int) -> int {
    (offset + i) % 0x0100
}

/// OAM after the bytes of `data` were written to it one by one from `offset`
/// on, each to the index that `oam_index` gives.
pub open spec fn oam_after_dma(oam: Seq<u8>, data: Seq<u8>, offset: u8) -> Seq<u8>
    decreases data.len(),
{
    if data.len() == 0 {
        oam
    } else {
        oam_after_dma(oam, data.drop_last(), offset).update(
            oam_index(offset, data.len() - 1),
            data.last(),
        )
    }
}

/// A copy leaves the size of OAM as it was.
pub proof fn oam_after_dma_len(oam: Seq<u8>, data: Seq<u8>, offset: u8)
    requires
        oam.len() == 0x0100,
    ensures
        oam_after_dma(oam, data, offset).len() == 0x0100,
    decreases data.len(),
{
    if data.len() > 0 {
        oam_after_dma_len(oam, data.drop_last(), offset);
    }
}

/// A payload of at most one page overwrites OAM from `offset` on, wrapping at
/// the end of OAM, and leaves the other bytes alone: byte `j` of OAM comes
/// from the payload if `j` lies less than the payload's length past `offset`.
pub proof fn oam_after_dma_bytes(oam: Seq<u8>, data: Seq<u8>, offset: u8, j: int)
    requires
        oam.len() == 0x0100,
        data.len() <= 0x0100,
        0 <= j < 0x0100,
    ensures
        oam_after_dma(oam, data, offset)[j] == if (j - offset) % 0x0100 < data.len() {
            data[(j - offset) % 0x0100]
        } else {
            oam[j]
        },
    decreases data.len(),
{
    if data.len() > 0 {
        let rest = data.drop_last();
        oam_after_dma_bytes(oam, rest, offset, j);
        oam_after_dma_len(oam, rest, offset);
    }
}

/// A full page replaces all of OAM: byte `i` of the payload is then found at
/// `oam_index(offset, i)`.
pub proof fn oam_after_full_dma(oam: Seq<u8>, data: Seq<u8>, offset: u8, i: int)
    requires
        oam.len() == 0x0100,
        data.len() == 0x0100,
        0 <= i < 0x0100,
    ensures
        oam_after_dma(oam, data, offset)[oam_index(offset, i)] == data[i],
{
    oam_after_dma_bytes(oam, data, offset, oam_index(offset, i));
}

/// The stall that a DMA charges at the given reading of the bus-cycle counter.
pub fn stall_cycles(cycles: u8) -> (stall: u16)
    ensures
        stall == dma_stall(cycles),
        cycles % 2 == 0 ==> stall == 513,
        cycles % 2 == 1 ==> stall == 514,
{
    513 + if cycles % 2 == 0 {
        0
    } else {
        1
    }
}

/// Copies a payload into OAM from `offset` on.
pub fn copy_into_oam(oam: &mut [u8; 0x0100], data: &Vec<u8>, offset: u8)
    ensures
        final(oam)@ == oam_after_dma(old(oam)@, data@, offset),
{
    let mut i: usize = 0;
    while i < data.len()
        invariant
            i <= data.len(),
            oam@ == oam_after_dma(old(oam)@, data@.take(i as int), offset),
        decreases data.len() - i,
    {
        let index: usize = (i % DMA_LEN + offset as usize) % DMA_LEN;
        assert(index == oam_index(offset, i as int));
        assert(data@.take(i + 1).drop_last() == data@.take(i as int));
        oam[index] = data[i];
        i += 1;
    }
    assert(data@.take(i as int) == data@);
}

} // verus!

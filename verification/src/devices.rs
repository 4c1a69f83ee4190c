//! Physical memory regions of the devices, as addressed from the A9.
use crate::sel4::seL4_Word;
use vstd::prelude::*;

verus! {

/// DDR region we're using - should be first untyped
pub const DDR_PADDR: seL4_Word = 0x8000_0000;
pub const DDR_SIZE: usize = 0x1_0000;

/// M4 TCM(L) - 8 pages, 32 KB
pub const M4_TCM_PADDR: seL4_Word = 0x007F_8000;
pub const M4_TCM_SIZE: usize = 8 * 0x1000;
pub const M4_TCM_SIZE_BITS: usize = 15;

/// SRC, first page for SRC_SCR
pub const SRC_PADDR: seL4_Word = 0x020D_8000;
pub const SRC_SIZE: usize = 0x1000;
pub const SRC_SIZE_BITS: usize = 12;
pub const SRC_SCR_OFFSET: seL4_Word = 0;

/// CCM, first page for CCGR3
pub const CCM_PADDR: seL4_Word = 0x020C_4000;
pub const CCM_SIZE: usize = 0x1000;
pub const CCM_SIZE_BITS: usize = 12;
pub const CCM_CCGR3_OFFSET: seL4_Word = 0x74;

/// CCGR3 with the M4 core clock gate on (bits 2 and 3).
pub fn ccgr3_enable_m4_clock(ccgr3: u32) -> (v: u32)
    ensures
        v == ccgr3 | 0xC,
{
    ccgr3 | 0xC
}

/// SRC_SCR with the M4 core enabled (bit 22) and held in soft reset (bit 4).
pub fn src_scr_enable_m4_in_reset(scr: u32) -> (v: u32)
    ensures
        v == scr | 0x40_0000 | 0x10,
{
    scr | 0x40_0000 | 0x10
}

/// SRC_SCR with the M4 soft reset (bit 4) released, which starts the core.
pub fn src_scr_release_m4_reset(scr: u32) -> (v: u32)
    ensures
        v == scr & !0x10u32,
{
    scr & !0x10u32
}

/// Whether the self-clearing software reset (SRC_SCR bit 3) is still set.
pub fn src_scr_reset_pending(scr: u32) -> (b: bool)
    ensures
        b == (scr & 0x8 != 0),
{
    (scr & 0x8) != 0
}

} // verus!

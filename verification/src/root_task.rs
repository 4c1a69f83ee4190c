//! Decisions of the root task: where the thread's stack ends and which
//! registers the thread that boots the M4 core works on.
use crate::devices::{CCM_CCGR3_OFFSET, SRC_SCR_OFFSET};
use crate::sel4::{seL4_Word, seL4_WordBits};
use vstd::prelude::*;

verus! {

/// Badge of the fault endpoint given to the thread.
pub const FAULT_EP_BADGE: seL4_Word = 0xBEEF;

/// Size of the thread's stack in bytes.
pub const THREAD_STACK_SIZE: usize = 4096;

/// Smallest stack that the thread is given.
pub const MIN_THREAD_STACK_SIZE: usize = 512;

/// Alignment that the kernel's ABI asks of a stack: two words.
pub fn stack_alignment_requirement() -> (a: usize)
    ensures
        a == (seL4_WordBits / 8) * 2,
        a == 8,
{
    (seL4_WordBits / 8) * 2
}

/// The top of a stack of `stack_size` bytes at `stack_base`, where the stack
/// is at least `MIN_THREAD_STACK_SIZE` bytes, its size and its top are
/// aligned to `stack_alignment_requirement()` and its top is an address.
pub fn thread_stack_top(stack_base: usize, stack_size: usize) -> (top: Option<usize>)
    ensures
        top is Some <==> (stack_size >= MIN_THREAD_STACK_SIZE && stack_size % 8 == 0
            && stack_base + stack_size <= usize::MAX && (stack_base + stack_size) % 8 == 0),
        top is Some ==> top->0 == stack_base + stack_size,
{
    let align = stack_alignment_requirement();
    if stack_size < MIN_THREAD_STACK_SIZE || stack_size % align != 0 {
        return None;
    }
    if stack_base > usize::MAX - stack_size {
        return None;
    }
    let stack_top = stack_base + stack_size;
    if stack_top % align != 0 {
        return None;
    }
    Some(stack_top)
}

/// Virtual addresses of the device frames that the thread works on.
#[derive(Copy, Clone, PartialEq, Eq, Structural, Debug)]
pub struct ThreadData {
    pub src_vaddr: seL4_Word,
    pub ccm_vaddr: seL4_Word,
    pub tcm_vaddr: seL4_Word,
}

impl ThreadData {
    /// Address of SRC_SCR in the thread's address space.
    pub fn src_scr_vaddr(&self) -> (a: seL4_Word)
        requires
            self.src_vaddr + SRC_SCR_OFFSET <= u32::MAX,
        ensures
            a == self.src_vaddr + SRC_SCR_OFFSET,
    {
        self.src_vaddr + SRC_SCR_OFFSET
    }

    /// Address of CCM_CCGR3 in the thread's address space.
    pub fn ccm_ccgr3_vaddr(&self) -> (a: seL4_Word)
        requires
            self.ccm_vaddr + CCM_CCGR3_OFFSET <= u32::MAX,
        ensures
            a == self.ccm_vaddr + CCM_CCGR3_OFFSET,
    {
        self.ccm_vaddr + CCM_CCGR3_OFFSET
    }
}

} // verus!

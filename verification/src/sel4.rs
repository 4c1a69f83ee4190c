//! The seL4 (aarch32) kernel constants and types that the root task uses.
use vstd::prelude::*;

verus! {

/// A machine word of the kernel's ABI.
pub type seL4_Word = u32;

/// A capability pointer.
pub type seL4_CPtr = u32;

pub const seL4_WordBits: usize = 32;
pub const seL4_PageBits: usize = 12;
pub const seL4_SlotBits: usize = 4;
pub const seL4_TCBBits: usize = 9;
pub const seL4_EndpointBits: usize = 4;
pub const seL4_NotificationBits: usize = 4;
pub const seL4_PageTableBits: usize = 10;
pub const seL4_PageDirBits: usize = 14;

/// Capability to the initial thread's TCB.
pub const seL4_CapInitThreadTCB: seL4_CPtr = 1;
/// Capability to the initial thread's root CNode.
pub const seL4_CapInitThreadCNode: seL4_CPtr = 2;
/// Capability to the initial thread's VSpace.
pub const seL4_CapInitThreadVSpace: seL4_CPtr = 3;

pub const api_object_seL4_UntypedObject: seL4_Word = 0;
pub const api_object_seL4_TCBObject: seL4_Word = 1;
pub const api_object_seL4_EndpointObject: seL4_Word = 2;
pub const api_object_seL4_NotificationObject: seL4_Word = 3;
pub const api_object_seL4_CapTableObject: seL4_Word = 4;
pub const _object_seL4_ARM_SmallPageObject: seL4_Word = 5;
pub const _object_seL4_ARM_LargePageObject: seL4_Word = 6;
pub const _object_seL4_ARM_SectionObject: seL4_Word = 7;
pub const _object_seL4_ARM_SuperSectionObject: seL4_Word = 8;
pub const _object_seL4_ARM_PageTableObject: seL4_Word = 9;
pub const _object_seL4_ARM_PageDirectoryObject: seL4_Word = 10;

} // verus!

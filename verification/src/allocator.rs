//! The root task's allocator of seL4 capability slots and untyped memory,
//! and the VKA interface on top of it.
//!
//! The kernel's own work (retyping untyped memory, mapping frames) is asked
//! for by requests that this allocator hands out: the caller makes the
//! system call and hands the kernel's error code back, which decides the
//! outcome.
use crate::sel4::{
    _object_seL4_ARM_PageTableObject, _object_seL4_ARM_SmallPageObject, seL4_PageTableBits,
    api_object_seL4_CapTableObject, api_object_seL4_EndpointObject,
    api_object_seL4_NotificationObject, api_object_seL4_TCBObject, api_object_seL4_UntypedObject,
    seL4_CPtr, seL4_CapInitThreadCNode, seL4_EndpointBits, seL4_NotificationBits, seL4_SlotBits,
    seL4_TCBBits, seL4_Word,
};
use vstd::prelude::*;

verus! {

pub const MIN_UNTYPED_SIZE: usize = 4;
pub const MAX_UNTYPED_SIZE: usize = 32;
pub const MAX_UNTYPED_ITEMS: usize = 256;

/// Number of untyped sizes, from `MIN_UNTYPED_SIZE` to `MAX_UNTYPED_SIZE` bits.
pub const NUM_UNTYPED_SIZES: usize = 29;

/// Errors of the allocator.
#[derive(Copy, Clone, PartialEq, Eq, Structural, Debug)]
pub enum AllocError {
    /// No slot or no memory of the asked size is left, or the kernel refused.
    ResourceExhausted,
    /// The kernel refused an operation.
    Other,
}

/// An untyped memory capability and its size in bits.
#[derive(Copy, Clone, PartialEq, Eq, Structural, Debug)]
pub struct UntypedItem {
    pub cap: seL4_CPtr,
    pub size_bits: usize,
}

/// A range of capability slots: `count` slots from `first` on.
#[derive(Copy, Clone, PartialEq, Eq, Structural, Debug)]
pub struct CapRange {
    pub first: usize,
    pub count: usize,
}

/// An untyped item handed over at boot, and whether it is still free.
#[derive(Copy, Clone, PartialEq, Eq, Structural, Debug)]
pub struct InitUntypedItem {
    pub item: UntypedItem,
    pub is_free: bool,
}

/// The path of a slot in the allocator's CNode, as the kernel's CNode
/// operations take it.
#[derive(Copy, Clone, PartialEq, Eq, Structural, Debug)]
pub struct CSpacePath {
    pub cap_ptr: seL4_CPtr,
    pub cap_depth: seL4_Word,
    pub root: seL4_CPtr,
    pub dest: seL4_CPtr,
    pub dest_depth: seL4_CPtr,
    pub offset: seL4_CPtr,
    pub window: seL4_Word,
}

/// The arguments of a `seL4_Untyped_Retype` system call.
#[derive(Copy, Clone, PartialEq, Eq, Structural, Debug)]
pub struct UntypedRetype {
    pub service: seL4_CPtr,
    pub item_type: seL4_Word,
    pub size_bits: seL4_Word,
    pub root: seL4_CPtr,
    pub node_index: seL4_CPtr,
    pub node_depth: seL4_CPtr,
    pub node_offset: seL4_CPtr,
    pub num_objects: seL4_Word,
}

impl UntypedRetype {
    /// The untyped capability that the retype request uses, if the kernel
    /// reported no error.
    pub fn result(&self, err: seL4_Word) -> (r: Result<seL4_CPtr, AllocError>)
        ensures
            err == 0 ==> r == Ok::<seL4_CPtr, AllocError>(self.service),
            err != 0 ==> r == Err::<seL4_CPtr, AllocError>(AllocError::ResourceExhausted),
    {
        if err == 0 {
            Ok(self.service)
        } else {
            Err(AllocError::ResourceExhausted)
        }
    }
}

/// The allocator.
pub struct Allocator {
    /// CNode we allocate from
    root_cnode: seL4_CPtr,
    root_cnode_depth: seL4_CPtr,
    root_cnode_offset: seL4_CPtr,
    /// Range of free slots in the root cnode
    cslots: CapRange,
    /// Number of slots we've used
    num_slots_used: usize,
    /// Initial memory items
    num_init_untyped_items: usize,
    init_untyped_items: Vec<InitUntypedItem>,
    /// Untyped memory items we have created, one range per size
    untyped_items: Vec<CapRange>,
    /// Root page directory of the vspace
    page_directory: seL4_CPtr,
    /// Last page table created
    page_table: seL4_CPtr,
}

/// Whether `vka_get_object_size` knows the size of objects of type `obj_type`.
pub open spec fn object_size_known(obj_type: seL4_Word) -> bool {
    obj_type == api_object_seL4_UntypedObject || obj_type == api_object_seL4_TCBObject
        || obj_type == api_object_seL4_EndpointObject || obj_type
        == api_object_seL4_NotificationObject || obj_type == api_object_seL4_CapTableObject
}

/// Size in bits of the untyped memory that an object of type `obj_type` and
/// size `obj_size_bits` is made from.
pub open spec fn object_size(obj_type: seL4_Word, obj_size_bits: usize) -> int {
    if obj_type == api_object_seL4_UntypedObject {
        obj_size_bits as int
    } else if obj_type == api_object_seL4_TCBObject {
        seL4_TCBBits as int
    } else if obj_type == api_object_seL4_EndpointObject {
        seL4_EndpointBits as int
    } else if obj_type == api_object_seL4_NotificationObject {
        seL4_NotificationBits as int
    } else {
        seL4_SlotBits + obj_size_bits
    }
}

impl Allocator {
    pub closed spec fn spec_root_cnode(&self) -> seL4_CPtr {
        self.root_cnode
    }

    pub closed spec fn spec_root_cnode_depth(&self) -> seL4_CPtr {
        self.root_cnode_depth
    }

    pub closed spec fn spec_cslots(&self) -> CapRange {
        self.cslots
    }

    pub closed spec fn slots_used(&self) -> usize {
        self.num_slots_used
    }

    pub closed spec fn num_init_items(&self) -> usize {
        self.num_init_untyped_items
    }

    pub closed spec fn init_items(&self) -> Seq<InitUntypedItem> {
        self.init_untyped_items@
    }

    pub closed spec fn untyped_ranges(&self) -> Seq<CapRange> {
        self.untyped_items@
    }

    pub closed spec fn spec_page_directory(&self) -> seL4_CPtr {
        self.page_directory
    }

    pub closed spec fn spec_page_table(&self) -> seL4_CPtr {
        self.page_table
    }

    pub closed spec fn spec_root_cnode_offset(&self) -> seL4_CPtr {
        self.root_cnode_offset
    }

    /// `self` and `other` have the same CNode and the same vspace.
    pub open spec fn same_cnode_and_vspace(&self, other: &Allocator) -> bool {
        &&& self.spec_root_cnode() == other.spec_root_cnode()
        &&& self.spec_root_cnode_depth() == other.spec_root_cnode_depth()
        &&& self.spec_root_cnode_offset() == other.spec_root_cnode_offset()
        &&& self.spec_cslots() == other.spec_cslots()
        &&& self.spec_page_directory() == other.spec_page_directory()
        &&& self.spec_page_table() == other.spec_page_table()
    }

    /// `self` and `other` have the same untyped memory.
    pub open spec fn same_untyped(&self, other: &Allocator) -> bool {
        &&& self.num_init_items() == other.num_init_items()
        &&& self.init_items() == other.init_items()
        &&& self.untyped_ranges() == other.untyped_ranges()
    }

    /// `self` and `other` are in the same state.
    pub open spec fn same_state(&self, other: &Allocator) -> bool {
        &&& self.same_cnode_and_vspace(other)
        &&& self.same_untyped(other)
        &&& self.slots_used() == other.slots_used()
    }

    /// The allocator's invariant.
    pub closed spec fn wf(&self) -> bool {
        &&& self.num_slots_used <= self.cslots.count
        &&& self.cslots.first + self.cslots.count <= u32::MAX
        &&& self.init_untyped_items@.len() == MAX_UNTYPED_ITEMS
        &&& self.num_init_untyped_items <= MAX_UNTYPED_ITEMS
        &&& self.untyped_items@.len() == NUM_UNTYPED_SIZES
        &&& forall|i: int|
            0 <= i < NUM_UNTYPED_SIZES ==> #[trigger] self.untyped_items@[i].first
                + self.untyped_items@[i].count <= u32::MAX
    }
}

/// Index in the per-size untyped ranges of untyped memory of `size_bits` bits.
pub open spec fn size_index(size_bits: usize) -> int {
    size_bits - MIN_UNTYPED_SIZE
}

/// Whether initial item `i` is free and of `size_bits` bits.
pub open spec fn init_item_fits(items: Seq<InitUntypedItem>, i: int, size_bits: usize) -> bool {
    items[i].is_free && items[i].item.size_bits == size_bits
}

/// What taking untyped memory of `size_bits` bits does to the untyped memory
/// of `old`, giving `new` and the result `r`: the first capability of the
/// range kept for that size where it is not empty, else the first free
/// initial item of that size, which is then no longer free, else
/// `ResourceExhausted` with nothing changed. A size outside
/// `MIN_UNTYPED_SIZE..=MAX_UNTYPED_SIZE` is never available.
pub open spec fn untyped_step(
    old: Allocator,
    new: Allocator,
    size_bits: usize,
    r: Result<seL4_CPtr, AllocError>,
) -> bool {
    &&& new.num_init_items() == old.num_init_items()
    &&& r is Err ==> r->Err_0 == AllocError::ResourceExhausted && new.same_untyped(&old)
    &&& (size_bits < MIN_UNTYPED_SIZE || size_bits > MAX_UNTYPED_SIZE) ==> r is Err
    &&& (MIN_UNTYPED_SIZE <= size_bits <= MAX_UNTYPED_SIZE && old.untyped_ranges()[size_index(size_bits)].count > 0) ==> {
        let range = old.untyped_ranges()[size_index(size_bits)];
        &&& r == Ok::<seL4_CPtr, AllocError>(range.first as seL4_CPtr)
        &&& new.untyped_ranges() == old.untyped_ranges().update(
            size_index(size_bits),
            CapRange { first: (range.first + 1) as usize, count: (range.count - 1) as usize },
        )
        &&& new.init_items() == old.init_items()
    }
    &&& (MIN_UNTYPED_SIZE <= size_bits <= MAX_UNTYPED_SIZE && old.untyped_ranges()[size_index(size_bits)].count == 0) ==> {
        &&& r is Ok <==> exists|i: int|
            0 <= i < old.num_init_items() && #[trigger] init_item_fits(old.init_items(), i, size_bits)
        &&& r is Ok ==> exists|i: int|
            0 <= i < old.num_init_items() && #[trigger] init_item_fits(old.init_items(), i, size_bits)
            && (forall|j: int| 0 <= j < i ==> !#[trigger] init_item_fits(old.init_items(), j, size_bits))
            && r->Ok_0 == old.init_items()[i].item.cap
            && new.init_items() == old.init_items().update(i,
                InitUntypedItem { item: old.init_items()[i].item, is_free: false })
        &&& new.untyped_ranges() == old.untyped_ranges()
    }
}

/// What allocating a slot does: the next free slot of the range, which is
/// then used, or `ResourceExhausted` when all are used; nothing else changes.
pub open spec fn cslot_alloc_step(old: Allocator, new: Allocator, r: Result<seL4_CPtr, AllocError>) -> bool {
    &&& new.same_cnode_and_vspace(&old)
    &&& new.same_untyped(&old)
    &&& r is Ok <==> old.slots_used() < old.spec_cslots().count
    &&& r is Ok ==> r->Ok_0 == old.spec_cslots().first + old.slots_used() && new.slots_used()
        == old.slots_used() + 1
    &&& r is Err ==> r->Err_0 == AllocError::ResourceExhausted && new.slots_used() == old.slots_used()
}

/// What freeing `slot` does: the slot allocated last is free again; any
/// other slot stays used; nothing else changes.
pub open spec fn cslot_free_step(old: Allocator, new: Allocator, slot: seL4_CPtr) -> bool {
    &&& new.same_cnode_and_vspace(&old)
    &&& new.same_untyped(&old)
    &&& new.slots_used() == if old.slots_used() > 0 && slot == old.spec_cslots().first
        + old.slots_used() - 1 {
        old.slots_used() - 1
    } else {
        old.slots_used() as int
    }
}

impl Allocator {
    /// An allocator with no slots and no untyped memory.
    pub fn new() -> (a: Allocator)
        ensures
            a.wf(),
            a.spec_cslots() == (CapRange { first: 0, count: 0 }),
            a.slots_used() == 0,
            a.num_init_items() == 0,
            forall|i: int| 0 <= i < NUM_UNTYPED_SIZES ==> (#[trigger] a.untyped_ranges()[i]).count == 0,
    {
        let mut init_untyped_items: Vec<InitUntypedItem> = Vec::new();
        let mut i: usize = 0;
        while i < MAX_UNTYPED_ITEMS
            invariant
                i <= MAX_UNTYPED_ITEMS,
                init_untyped_items@.len() == i,
            decreases MAX_UNTYPED_ITEMS - i,
        {
            init_untyped_items.push(
                InitUntypedItem { item: UntypedItem { cap: 0, size_bits: 0 }, is_free: false },
            );
            i = i + 1;
        }
        let mut untyped_items: Vec<CapRange> = Vec::new();
        let mut j: usize = 0;
        while j < NUM_UNTYPED_SIZES
            invariant
                j <= NUM_UNTYPED_SIZES,
                untyped_items@.len() == j,
                forall|k: int| 0 <= k < j ==> #[trigger] untyped_items@[k] == (CapRange { first: 0, count: 0 }),
            decreases NUM_UNTYPED_SIZES - j,
        {
            untyped_items.push(CapRange { first: 0, count: 0 });
            j = j + 1;
        }
        Allocator {
            root_cnode: 0,
            root_cnode_depth: 0,
            root_cnode_offset: 0,
            cslots: CapRange { first: 0, count: 0 },
            num_slots_used: 0,
            num_init_untyped_items: 0,
            init_untyped_items,
            untyped_items,
            page_directory: 0,
            page_table: 0,
        }
    }

    /// Takes over the root CNode `root_cnode` of depth `root_cnode_depth`,
    /// its free slots `empty`, and the untyped items `untyped`, all free.
    pub fn bootstrap(
        &mut self,
        root_cnode: seL4_CPtr,
        root_cnode_depth: seL4_CPtr,
        empty: CapRange,
        untyped: &[UntypedItem],
    )
        requires
            old(self).wf(),
            empty.first + empty.count <= u32::MAX,
            untyped@.len() <= MAX_UNTYPED_ITEMS,
        ensures
            final(self).wf(),
            final(self).spec_root_cnode() == root_cnode,
            final(self).spec_root_cnode_depth() == root_cnode_depth,
            final(self).spec_root_cnode_offset() == 0,
            final(self).spec_cslots() == empty,
            final(self).slots_used() == 0,
            final(self).num_init_items() == untyped@.len(),
            forall|i: int|
                0 <= i < untyped@.len() ==> #[trigger] final(self).init_items()[i] == (InitUntypedItem {
                    item: untyped@[i],
                    is_free: true,
                }),
            final(self).untyped_ranges() == old(self).untyped_ranges(),
            final(self).spec_page_directory() == old(self).spec_page_directory(),
            final(self).spec_page_table() == old(self).spec_page_table(),
    {
        self.root_cnode = root_cnode;
        self.root_cnode_depth = root_cnode_depth;
        self.root_cnode_offset = 0;
        self.cslots = empty;
        self.num_slots_used = 0;
        let n = untyped.len();
        let mut i: usize = 0;
        while i < n
            invariant
                i <= n,
                n == untyped@.len(),
                n <= MAX_UNTYPED_ITEMS,
                self.init_untyped_items@.len() == MAX_UNTYPED_ITEMS,
                self.root_cnode == root_cnode,
                self.root_cnode_depth == root_cnode_depth,
                self.root_cnode_offset == 0,
                self.cslots == empty,
                self.num_slots_used == 0,
                empty.first + empty.count <= u32::MAX,
                self.num_init_untyped_items <= MAX_UNTYPED_ITEMS,
                self.untyped_items@ == old(self).untyped_items@,
                self.untyped_items@.len() == NUM_UNTYPED_SIZES,
                self.page_directory == old(self).page_directory,
                self.page_table == old(self).page_table,
                old(self).wf(),
                forall|k: int|
                    0 <= k < i ==> #[trigger] self.init_untyped_items@[k] == (InitUntypedItem {
                        item: untyped@[k],
                        is_free: true,
                    }),
            decreases n - i,
        {
            self.init_untyped_items.set(i, InitUntypedItem { item: untyped[i], is_free: true });
            i = i + 1;
        }
        self.num_init_untyped_items = n;
    }

    /// Number of slots of the CNode's free range that are not used yet.
    pub fn num_free_slots(&self) -> (n: usize)
        requires
            self.wf(),
        ensures
            n == self.spec_cslots().count - self.slots_used(),
    {
        self.cslots.count - self.num_slots_used
    }

    /// The next free slot of the CNode.
    fn alloc_cslot(&mut self) -> (r: Result<seL4_CPtr, AllocError>)
        requires
            old(self).wf(),
        ensures
            final(self).wf(),
            cslot_alloc_step(*old(self), *final(self), r),
    {
        if self.num_slots_used == self.cslots.count {
            return Err(AllocError::ResourceExhausted);
        }
        let slot = (self.cslots.first + self.num_slots_used) as seL4_CPtr;
        self.num_slots_used = self.num_slots_used + 1;
        Ok(slot)
    }

    /// Gives `slot` back where it is the slot allocated last; any other slot
    /// stays used.
    fn free_cslot(&mut self, slot: seL4_CPtr)
        requires
            old(self).wf(),
        ensures
            final(self).wf(),
            cslot_free_step(*old(self), *final(self), slot),
    {
        if self.num_slots_used > 0 && slot as usize == self.cslots.first + self.num_slots_used - 1 {
            self.num_slots_used = self.num_slots_used - 1;
        }
    }

    /// Allocates a slot of the CNode: the next free one.
    pub fn vka_cspace_alloc(&mut self) -> (r: Result<seL4_CPtr, AllocError>)
        requires
            old(self).wf(),
        ensures
            final(self).wf(),
            cslot_alloc_step(*old(self), *final(self), r),
    {
        self.alloc_cslot()
    }

    /// Frees `slot`: only the slot allocated last is taken back.
    pub fn vka_cspace_free(&mut self, slot: seL4_CPtr)
        requires
            old(self).wf(),
        ensures
            final(self).wf(),
            cslot_free_step(*old(self), *final(self), slot),
    {
        self.free_cslot(slot)
    }

    /// The path of `slot` in the allocator's CNode.
    pub fn vka_cspace_make_path(&self, slot: seL4_CPtr) -> (p: CSpacePath)
        ensures
            p == (CSpacePath {
                cap_ptr: slot,
                cap_depth: 32,
                root: self.spec_root_cnode(),
                dest: self.spec_root_cnode(),
                dest_depth: self.spec_root_cnode_depth(),
                offset: slot,
                window: 1,
            }),
    {
        CSpacePath {
            cap_ptr: slot,
            cap_depth: 32,
            root: self.root_cnode,
            dest: self.root_cnode,
            dest_depth: self.root_cnode_depth,
            offset: slot,
            window: 1,
        }
    }

    /// Size in bits of the untyped memory that an object of type `obj_type`
    /// and size `obj_size_bits` needs. Only untyped memory, TCBs, endpoints,
    /// notifications and CNodes are known.
    pub fn vka_get_object_size(&self, obj_type: seL4_Word, obj_size_bits: usize) -> (n: usize)
        requires
            object_size_known(obj_type),
            obj_type == api_object_seL4_CapTableObject ==> seL4_SlotBits + obj_size_bits
                <= usize::MAX,
        ensures
            n == object_size(obj_type, obj_size_bits),
    {
        if obj_type == api_object_seL4_UntypedObject {
            obj_size_bits
        } else if obj_type == api_object_seL4_TCBObject {
            seL4_TCBBits
        } else if obj_type == api_object_seL4_EndpointObject {
            seL4_EndpointBits
        } else if obj_type == api_object_seL4_NotificationObject {
            seL4_NotificationBits
        } else {
            seL4_SlotBits + obj_size_bits
        }
    }

    /// Untyped memory of `size_bits` bits: the first capability of the range
    /// kept for that size if it is not empty, else the first free initial
    /// item of that size, which is then no longer free.
    fn alloc_untyped(&mut self, size_bits: usize) -> (r: Result<seL4_CPtr, AllocError>)
        requires
            old(self).wf(),
        ensures
            final(self).wf(),
            final(self).same_cnode_and_vspace(old(self)),
            final(self).slots_used() == old(self).slots_used(),
            untyped_step(*old(self), *final(self), size_bits, r),
    {
        if size_bits < MIN_UNTYPED_SIZE || size_bits > MAX_UNTYPED_SIZE {
            return Err(AllocError::ResourceExhausted);
        }
        let idx = size_bits - MIN_UNTYPED_SIZE;
        let range = self.untyped_items[idx];
        if range.count > 0 {
            let cap = range.first as seL4_CPtr;
            self.untyped_items.set(idx, CapRange { first: range.first + 1, count: range.count - 1 });
            proof {
                assert forall|i: int| 0 <= i < NUM_UNTYPED_SIZES implies #[trigger] self.untyped_items@[i].first
                    + self.untyped_items@[i].count <= u32::MAX by {
                    if i != idx {
                        assert(self.untyped_items@[i] == old(self).untyped_items@[i]);
                    }
                }
            }
            return Ok(cap);
        }
        let n = self.num_init_untyped_items;
        let mut i: usize = 0;
        while i < n
            invariant
                i <= n,
                n == old(self).num_init_items(),
                *self == *old(self),
                old(self).wf(),
                MIN_UNTYPED_SIZE <= size_bits <= MAX_UNTYPED_SIZE,
                old(self).untyped_ranges()[size_index(size_bits)].count == 0,
                forall|j: int| 0 <= j < i ==> !#[trigger] init_item_fits(old(self).init_items(), j, size_bits),
            decreases n - i,
        {
            let it = self.init_untyped_items[i];
            if it.is_free && it.item.size_bits == size_bits {
                self.init_untyped_items.set(i, InitUntypedItem { item: it.item, is_free: false });
                assert(init_item_fits(old(self).init_items(), i as int, size_bits));
                return Ok(it.item.cap);
            }
            i = i + 1;
        }
        Err(AllocError::ResourceExhausted)
    }
}

/// All the allocation information of an object: its capability, the
/// untyped memory it was made from, its type and its size.
#[derive(Copy, Clone, PartialEq, Eq, Structural, Debug)]
pub struct VkaObject {
    pub cptr: seL4_CPtr,
    pub ut: seL4_Word,
    pub item_type: seL4_Word,
    pub size_bits: seL4_Word,
}

impl VkaObject {
    /// An object with every field zero.
    pub fn new() -> (o: VkaObject)
        ensures
            o == (VkaObject { cptr: 0, ut: 0, item_type: 0, size_bits: 0 }),
    {
        VkaObject { cptr: 0, ut: 0, item_type: 0, size_bits: 0 }
    }
}

/// An object whose slot and untyped memory are allocated and which the
/// kernel still has to make by `retype`.
#[derive(Copy, Clone, PartialEq, Eq, Structural, Debug)]
pub struct ObjectRequest {
    pub object: VkaObject,
    pub retype: UntypedRetype,
}

impl ObjectRequest {
    /// The object, if the kernel made it (`err` is the kernel's error code).
    pub fn complete(&self, err: seL4_Word) -> (r: Result<VkaObject, AllocError>)
        ensures
            err == 0 ==> r == Ok::<VkaObject, AllocError>(self.object),
            err != 0 ==> r == Err::<VkaObject, AllocError>(AllocError::ResourceExhausted),
    {
        match self.retype.result(err) {
            Ok(_) => Ok(self.object),
            Err(e) => Err(e),
        }
    }
}

/// The retype request that makes one object of type `item_type` and size
/// `size_bits` from `untyped` into slot `slot` of the allocator's CNode.
pub open spec fn retype_request(
    a: Allocator,
    slot: seL4_CPtr,
    item_type: seL4_Word,
    size_bits: usize,
    untyped: seL4_CPtr,
) -> UntypedRetype {
    UntypedRetype {
        service: untyped,
        item_type,
        size_bits: size_bits as seL4_Word,
        root: seL4_CapInitThreadCNode,
        node_index: a.spec_root_cnode(),
        node_depth: a.spec_root_cnode_depth(),
        node_offset: slot,
        num_objects: 1,
    }
}

/// What allocating an object of type `obj_type` and size `size_bits` does:
/// take the next free slot, or fail with `ResourceExhausted`; then take
/// untyped memory of the object's size as `untyped_step` says, or fail with
/// its error (the slot stays used); and hand out the object with the
/// request that makes it in that slot.
pub open spec fn object_step(
    old: Allocator,
    new: Allocator,
    obj_type: seL4_Word,
    size_bits: usize,
    r: Result<ObjectRequest, AllocError>,
) -> bool {
    &&& new.same_cnode_and_vspace(&old)
    &&& if old.slots_used() == old.spec_cslots().count {
        &&& r == Err::<ObjectRequest, AllocError>(AllocError::ResourceExhausted)
        &&& new.same_state(&old)
    } else {
        let slot = (old.spec_cslots().first + old.slots_used()) as seL4_CPtr;
        let ut_bits = object_size(obj_type, size_bits) as usize;
        &&& new.slots_used() == old.slots_used() + 1
        &&& untyped_step(old, new, ut_bits, match r {
            Ok(q) => Ok::<seL4_CPtr, AllocError>(q.retype.service),
            Err(e) => Err::<seL4_CPtr, AllocError>(e),
        })
        &&& r is Ok ==> r->Ok_0 == (ObjectRequest {
            object: VkaObject {
                cptr: slot,
                ut: r->Ok_0.retype.service,
                item_type: obj_type,
                size_bits: size_bits as seL4_Word,
            },
            retype: retype_request(old, slot, obj_type, size_bits, r->Ok_0.retype.service),
        })
    }
}

impl Allocator {
    /// Takes untyped memory for an object of type `item_type` and size
    /// `size_bits`, and the request that retypes it into the slot of `dest`.
    pub fn vka_utspace_alloc(&mut self, dest: &CSpacePath, item_type: seL4_Word, size_bits: usize) -> (r: Result<UntypedRetype, AllocError>)
        requires
            old(self).wf(),
            object_size_known(item_type),
            item_type == api_object_seL4_CapTableObject ==> seL4_SlotBits + size_bits <= usize::MAX,
        ensures
            final(self).wf(),
            final(self).same_cnode_and_vspace(old(self)),
            final(self).slots_used() == old(self).slots_used(),
            untyped_step(*old(self), *final(self), object_size(item_type, size_bits) as usize, match r {
                Ok(q) => Ok::<seL4_CPtr, AllocError>(q.service),
                Err(e) => Err::<seL4_CPtr, AllocError>(e),
            }),
            r is Ok ==> r->Ok_0 == retype_request(*old(self), dest.cap_ptr, item_type, size_bits, r->Ok_0.service),
    {
        let ut_size_bits = self.vka_get_object_size(item_type, size_bits);
        let untyped_memory = self.alloc_untyped(ut_size_bits)?;
        Ok(UntypedRetype {
            service: untyped_memory,
            item_type,
            size_bits: size_bits as seL4_Word,
            root: seL4_CapInitThreadCNode,
            node_index: self.root_cnode,
            node_depth: self.root_cnode_depth,
            node_offset: dest.cap_ptr,
            num_objects: 1,
        })
    }

    /// Allocates an object of type `obj_type` and size `size_bits`: a slot,
    /// untyped memory, and the request that makes the object. The slot is
    /// taken first, so where none is free this fails with `ResourceExhausted`
    /// whatever the type; only then is the object's size looked up, which
    /// `vka_get_object_size` knows for untyped memory, TCBs, endpoints,
    /// notifications and CNodes only.
    pub fn vka_alloc_object(&mut self, obj_type: seL4_Word, size_bits: usize) -> (r: Result<ObjectRequest, AllocError>)
        requires
            old(self).wf(),
            old(self).slots_used() < old(self).spec_cslots().count ==> object_size_known(obj_type),
            obj_type == api_object_seL4_CapTableObject ==> seL4_SlotBits + size_bits <= usize::MAX,
        ensures
            final(self).wf(),
            object_step(*old(self), *final(self), obj_type, size_bits, r),
    {
        let mut result: VkaObject = VkaObject::new();
        result.cptr = self.vka_cspace_alloc()?;
        let path = self.vka_cspace_make_path(result.cptr);
        let retype = self.vka_utspace_alloc(&path, obj_type, size_bits)?;
        result.ut = retype.service;
        result.item_type = obj_type;
        result.size_bits = size_bits as seL4_Word;
        Ok(ObjectRequest { object: result, retype })
    }

    /// Allocates untyped memory of `size_bits` bits as an object.
    pub fn vka_alloc_untyped(&mut self, size_bits: usize) -> (r: Result<ObjectRequest, AllocError>)
        requires
            old(self).wf(),
        ensures
            final(self).wf(),
            object_step(*old(self), *final(self), api_object_seL4_UntypedObject, size_bits, r),
    {
        self.vka_alloc_object(api_object_seL4_UntypedObject, size_bits)
    }

    /// Allocates a TCB.
    pub fn vka_alloc_tcb(&mut self) -> (r: Result<ObjectRequest, AllocError>)
        requires
            old(self).wf(),
        ensures
            final(self).wf(),
            object_step(*old(self), *final(self), api_object_seL4_TCBObject, seL4_TCBBits, r),
    {
        self.vka_alloc_object(api_object_seL4_TCBObject, seL4_TCBBits)
    }

    /// Allocates an endpoint.
    pub fn vka_alloc_endpoint(&mut self) -> (r: Result<ObjectRequest, AllocError>)
        requires
            old(self).wf(),
        ensures
            final(self).wf(),
            object_step(*old(self), *final(self), api_object_seL4_EndpointObject, seL4_EndpointBits, r),
    {
        self.vka_alloc_object(api_object_seL4_EndpointObject, seL4_EndpointBits)
    }

    /// Allocates a notification.
    pub fn vka_alloc_notification(&mut self) -> (r: Result<ObjectRequest, AllocError>)
        requires
            old(self).wf(),
        ensures
            final(self).wf(),
            object_step(*old(self), *final(self), api_object_seL4_NotificationObject, seL4_NotificationBits, r),
    {
        self.vka_alloc_object(api_object_seL4_NotificationObject, seL4_NotificationBits)
    }

    /// Allocates a frame of `size_bits` bits. The size of frames is not known
    /// to `vka_get_object_size`, which gives up on them, so this can be asked
    /// for only when no slot is free; then it fails with `ResourceExhausted`
    /// before the size is looked at.
    pub fn vka_alloc_frame(&mut self, size_bits: usize) -> (r: Result<ObjectRequest, AllocError>)
        requires
            old(self).wf(),
            old(self).slots_used() == old(self).spec_cslots().count,
        ensures
            final(self).wf(),
            object_step(*old(self), *final(self), _object_seL4_ARM_SmallPageObject, size_bits, r),
    {
        self.vka_alloc_object(_object_seL4_ARM_SmallPageObject, size_bits)
    }

    /// Allocates a page table. The size of page tables is not known to
    /// `vka_get_object_size`, which gives up on them, so this can be asked
    /// for only when no slot is free; then it fails with `ResourceExhausted`
    /// before the size is looked at.
    pub fn vka_alloc_page_table(&mut self) -> (r: Result<ObjectRequest, AllocError>)
        requires
            old(self).wf(),
            old(self).slots_used() == old(self).spec_cslots().count,
        ensures
            final(self).wf(),
            object_step(*old(self), *final(self), _object_seL4_ARM_PageTableObject, seL4_PageTableBits, r),
    {
        self.vka_alloc_object(_object_seL4_ARM_PageTableObject, seL4_PageTableBits)
    }
}

/// A kernel object whose untyped memory and slot are allocated and which
/// the kernel still has to make by `retype`.
#[derive(Copy, Clone, PartialEq, Eq, Structural, Debug)]
pub struct KObjectRequest {
    pub slot: seL4_CPtr,
    pub retype: UntypedRetype,
}

impl KObjectRequest {
    /// The object's capability if the kernel made it (`err` is the kernel's
    /// error code), and zero if it made none.
    pub fn complete(&self, err: seL4_Word) -> (r: Option<seL4_CPtr>)
        ensures
            r == Some(if err == 0 { self.slot } else { 0 }),
    {
        if err == 0 {
            Some(self.slot)
        } else {
            Some(0)
        }
    }
}

impl Allocator {
    /// Allocates a single object of type `item_type` and size `item_size`:
    /// untyped memory of the object's size, then a slot, and the request
    /// that makes the object in it; `None` where either is not available.
    pub fn alloc_kobject(&mut self, item_type: seL4_Word, item_size: usize) -> (r: Option<KObjectRequest>)
        requires
            old(self).wf(),
            object_size_known(item_type),
            item_type == api_object_seL4_CapTableObject ==> seL4_SlotBits + item_size <= usize::MAX,
        ensures
            final(self).wf(),
            final(self).same_cnode_and_vspace(old(self)),
            exists|u: Result<seL4_CPtr, AllocError>| {
                &&& #[trigger] untyped_step(*old(self), *final(self), object_size(item_type, item_size) as usize, u)
                &&& match u {
                    Err(_) => r is None && final(self).slots_used() == old(self).slots_used(),
                    Ok(ut) => if old(self).slots_used() == old(self).spec_cslots().count {
                        r is None && final(self).slots_used() == old(self).slots_used()
                    } else {
                        let slot = (old(self).spec_cslots().first + old(self).slots_used()) as seL4_CPtr;
                        &&& final(self).slots_used() == old(self).slots_used() + 1
                        &&& r == Some(KObjectRequest {
                            slot,
                            retype: retype_request(*old(self), slot, item_type, item_size, ut),
                        })
                    },
                }
            },
    {
        let size_bits = self.vka_get_object_size(item_type, item_size);
        let untyped_result = self.alloc_untyped(size_bits);
        let untyped_mem = match untyped_result {
            Ok(u) => u,
            Err(_) => {
                // the untyped result is the witness of the postcondition
                assert(untyped_step(*old(self), *self, object_size(item_type, item_size) as usize, untyped_result));
                return None;
            },
        };
        let slot = match self.alloc_cslot() {
            Ok(s) => s,
            Err(_) => {
                assert(untyped_step(*old(self), *self, object_size(item_type, item_size) as usize, untyped_result));
                return None;
            },
        };
        assert(untyped_step(*old(self), *self, object_size(item_type, item_size) as usize, untyped_result));
        Some(KObjectRequest {
            slot,
            retype: UntypedRetype {
                service: untyped_mem,
                item_type,
                size_bits: item_size as seL4_Word,
                root: seL4_CapInitThreadCNode,
                node_index: self.root_cnode,
                node_depth: self.root_cnode_depth,
                node_offset: slot,
                num_objects: 1,
            },
        })
    }

    /// Makes `pd_cap` the root page directory of the vspace.
    pub fn bootstrap_vspace(&mut self, pd_cap: seL4_CPtr) -> (r: Result<(), AllocError>)
        requires
            old(self).wf(),
        ensures
            final(self).wf(),
            r is Ok,
            final(self).spec_page_directory() == pd_cap,
            final(self).spec_page_table() == old(self).spec_page_table(),
            final(self).spec_root_cnode() == old(self).spec_root_cnode(),
            final(self).spec_root_cnode_depth() == old(self).spec_root_cnode_depth(),
            final(self).spec_root_cnode_offset() == old(self).spec_root_cnode_offset(),
            final(self).spec_cslots() == old(self).spec_cslots(),
            final(self).slots_used() == old(self).slots_used(),
            final(self).same_untyped(old(self)),
    {
        self.page_directory = pd_cap;
        Ok(())
    }
}

/// Where mapping a frame stands.
#[derive(Copy, Clone, PartialEq, Eq, Structural, Debug)]
pub enum MapPageStep {
    /// The frame is being mapped.
    MapFrame,
    /// The first mapping failed; a page table is being allocated.
    AllocPageTable,
    /// The new page table is being mapped.
    MapPageTable,
    /// The frame is being mapped again, into the new page table.
    RemapFrame,
}

/// Mapping of frame `cap` at `vaddr` with `cache_attributes`.
#[derive(Copy, Clone, PartialEq, Eq, Structural, Debug)]
pub struct MapPage {
    pub cap: seL4_CPtr,
    pub vaddr: seL4_Word,
    pub cache_attributes: seL4_Word,
    pub step: MapPageStep,
}

/// What the kernel or the allocator reported of the last action.
#[derive(Copy, Clone, Debug)]
pub enum MapPageEvent {
    /// The error code of the last system call.
    Kernel(seL4_Word),
    /// The page table that was allocated, or why none was.
    PageTable(Result<VkaObject, AllocError>),
}

/// The next thing to do to map a frame.
#[derive(Copy, Clone, Debug)]
pub enum MapPageAction {
    /// `seL4_ARM_Page_Map(cap, page_directory, vaddr, all rights, attributes)`
    MapFrame { cap: seL4_CPtr, page_directory: seL4_CPtr, vaddr: seL4_Word, attributes: seL4_Word },
    /// Allocate a page table (`vka_alloc_page_table`).
    AllocPageTable,
    /// `seL4_ARM_PageTable_Map(page_table, page_directory, vaddr, attributes)`
    MapPageTable {
        page_table: seL4_CPtr,
        page_directory: seL4_CPtr,
        vaddr: seL4_Word,
        attributes: seL4_Word,
    },
    /// The mapping is done, with this outcome.
    Done(Result<(), AllocError>),
}

/// The event that answers the action of `step`.
pub open spec fn event_fits(step: MapPageStep, event: MapPageEvent) -> bool {
    match step {
        MapPageStep::AllocPageTable => event is PageTable,
        _ => event is Kernel,
    }
}

/// Mapping a frame: map it; if that fails, allocate a page table (the
/// allocator's new page table), map that page table and map the frame
/// again. A failure to allocate gives its error, a failure of either later
/// system call `Other`.
pub open spec fn map_page_next(
    m: MapPage,
    event: MapPageEvent,
    page_directory: seL4_CPtr,
) -> (MapPageStep, MapPageAction) {
    let frame = MapPageAction::MapFrame {
        cap: m.cap,
        page_directory,
        vaddr: m.vaddr,
        attributes: m.cache_attributes,
    };
    match (m.step, event) {
        (MapPageStep::MapFrame, MapPageEvent::Kernel(err)) => if err == 0 {
            (m.step, MapPageAction::Done(Ok(())))
        } else {
            (MapPageStep::AllocPageTable, MapPageAction::AllocPageTable)
        },
        (MapPageStep::AllocPageTable, MapPageEvent::PageTable(r)) => match r {
            Ok(pt) => (MapPageStep::MapPageTable, MapPageAction::MapPageTable {
                page_table: pt.cptr,
                page_directory,
                vaddr: m.vaddr,
                attributes: m.cache_attributes,
            }),
            Err(e) => (m.step, MapPageAction::Done(Err(e))),
        },
        (MapPageStep::MapPageTable, MapPageEvent::Kernel(err)) => if err == 0 {
            (MapPageStep::RemapFrame, frame)
        } else {
            (m.step, MapPageAction::Done(Err(AllocError::Other)))
        },
        (_, MapPageEvent::Kernel(err)) => if err == 0 {
            (m.step, MapPageAction::Done(Ok(())))
        } else {
            (m.step, MapPageAction::Done(Err(AllocError::Other)))
        },
        (_, _) => (m.step, MapPageAction::Done(Err(AllocError::Other))),
    }
}

impl Allocator {
    /// Starts mapping frame `cap` at `vaddr` with `cache_attributes`, with
    /// all rights (`_rights` is not used): the first action maps the frame.
    pub fn map_page(
        &self,
        cap: seL4_CPtr,
        vaddr: seL4_Word,
        _rights: seL4_Word,
        cache_attributes: seL4_Word,
    ) -> (r: (MapPage, MapPageAction))
        ensures
            r.0 == (MapPage { cap, vaddr, cache_attributes, step: MapPageStep::MapFrame }),
            r.1 == (MapPageAction::MapFrame {
                cap,
                page_directory: self.spec_page_directory(),
                vaddr,
                attributes: cache_attributes,
            }),
    {
        (
            MapPage { cap, vaddr, cache_attributes, step: MapPageStep::MapFrame },
            MapPageAction::MapFrame {
                cap,
                page_directory: self.page_directory,
                vaddr,
                attributes: cache_attributes,
            },
        )
    }

    /// The next action of mapping `m`, given what the last action reported;
    /// a page table that was allocated becomes the allocator's page table.
    pub fn map_page_step(&mut self, m: &mut MapPage, event: MapPageEvent) -> (action: MapPageAction)
        requires
            old(self).wf(),
            event_fits(old(m).step, event),
        ensures
            final(self).wf(),
            (final(m).step, action) == map_page_next(*old(m), event, old(self).spec_page_directory()),
            final(m).cap == old(m).cap,
            final(m).vaddr == old(m).vaddr,
            final(m).cache_attributes == old(m).cache_attributes,
            final(self).spec_page_table() == match event {
                MapPageEvent::PageTable(Ok(pt)) => pt.cptr,
                _ => old(self).spec_page_table(),
            },
            final(self).spec_page_directory() == old(self).spec_page_directory(),
            final(self).spec_root_cnode() == old(self).spec_root_cnode(),
            final(self).spec_root_cnode_depth() == old(self).spec_root_cnode_depth(),
            final(self).spec_root_cnode_offset() == old(self).spec_root_cnode_offset(),
            final(self).spec_cslots() == old(self).spec_cslots(),
            final(self).slots_used() == old(self).slots_used(),
            final(self).same_untyped(old(self)),
    {
        let frame = MapPageAction::MapFrame {
            cap: m.cap,
            page_directory: self.page_directory,
            vaddr: m.vaddr,
            attributes: m.cache_attributes,
        };
        match (m.step, event) {
            (MapPageStep::MapFrame, MapPageEvent::Kernel(err)) => {
                if err == 0 {
                    MapPageAction::Done(Ok(()))
                } else {
                    m.step = MapPageStep::AllocPageTable;
                    MapPageAction::AllocPageTable
                }
            },
            (MapPageStep::AllocPageTable, MapPageEvent::PageTable(r)) => match r {
                Ok(pt_obj) => {
                    self.page_table = pt_obj.cptr;
                    m.step = MapPageStep::MapPageTable;
                    MapPageAction::MapPageTable {
                        page_table: self.page_table,
                        page_directory: self.page_directory,
                        vaddr: m.vaddr,
                        attributes: m.cache_attributes,
                    }
                },
                Err(e) => MapPageAction::Done(Err(e)),
            },
            (MapPageStep::MapPageTable, MapPageEvent::Kernel(err)) => {
                if err != 0 {
                    MapPageAction::Done(Err(AllocError::Other))
                } else {
                    m.step = MapPageStep::RemapFrame;
                    frame
                }
            },
            (_, MapPageEvent::Kernel(err)) => {
                if err != 0 {
                    MapPageAction::Done(Err(AllocError::Other))
                } else {
                    MapPageAction::Done(Ok(()))
                }
            },
            (_, _) => MapPageAction::Done(Err(AllocError::Other)),
        }
    }
}

/// Freeing the slot that was just allocated gives the allocator back the
/// state it had before.
pub proof fn lemma_free_undoes_alloc(a: Allocator, b: Allocator, c: Allocator, slot: seL4_CPtr)
    requires
        cslot_alloc_step(a, b, Ok(slot)),
        cslot_free_step(b, c, slot),
    ensures
        c.same_state(&a),
{
}

/// Slots handed out one after the other are distinct, each within the
/// range of free slots, in increasing order.
pub proof fn lemma_slots_distinct(
    a: Allocator,
    b: Allocator,
    c: Allocator,
    s1: seL4_CPtr,
    s2: seL4_CPtr,
)
    requires
        cslot_alloc_step(a, b, Ok(s1)),
        cslot_alloc_step(b, c, Ok(s2)),
    ensures
        s1 < s2,
        a.spec_cslots().first <= s1,
        s2 < a.spec_cslots().first + a.spec_cslots().count,
{
}

/// The capabilities of the first `n` initial items are pairwise distinct.
pub open spec fn init_caps_distinct(items: Seq<InitUntypedItem>, n: int) -> bool {
    forall|i: int, j: int|
        0 <= i < n && 0 <= j < n && i != j ==> #[trigger] items[i].item.cap != #[trigger] items[j].item.cap
}

/// An initial untyped item is handed out at most once: two allocations of
/// the same size from the initial items, one after the other, give two
/// different capabilities, where the initial capabilities are distinct.
pub proof fn lemma_init_untyped_handed_out_once(
    a: Allocator,
    b: Allocator,
    c: Allocator,
    size_bits: usize,
    u1: seL4_CPtr,
    u2: seL4_CPtr,
)
    requires
        a.wf(),
        MIN_UNTYPED_SIZE <= size_bits <= MAX_UNTYPED_SIZE,
        a.untyped_ranges()[size_index(size_bits)].count == 0,
        init_caps_distinct(a.init_items(), a.num_init_items() as int),
        untyped_step(a, b, size_bits, Ok(u1)),
        untyped_step(b, c, size_bits, Ok(u2)),
    ensures
        u1 != u2,
{
    let i = choose|i: int|
        0 <= i < a.num_init_items() && #[trigger] init_item_fits(a.init_items(), i, size_bits)
            && (forall|j: int| 0 <= j < i ==> !#[trigger] init_item_fits(a.init_items(), j, size_bits))
            && u1 == a.init_items()[i].item.cap && b.init_items() == a.init_items().update(
            i,
            InitUntypedItem { item: a.init_items()[i].item, is_free: false },
        );
    assert(b.untyped_ranges()[size_index(size_bits)].count == 0);
    let j = choose|j: int|
        0 <= j < b.num_init_items() && #[trigger] init_item_fits(b.init_items(), j, size_bits)
            && (forall|k: int| 0 <= k < j ==> !#[trigger] init_item_fits(b.init_items(), k, size_bits))
            && u2 == b.init_items()[j].item.cap && c.init_items() == b.init_items().update(
            j,
            InitUntypedItem { item: b.init_items()[j].item, is_free: false },
        );
    assert(!init_item_fits(b.init_items(), i, size_bits));
    assert(j != i);
    assert(b.init_items()[j] == a.init_items()[j]);
    assert(a.init_items()[i].item.cap != a.init_items()[j].item.cap);
}

/// Rank of a step of mapping a frame, in the order the steps are taken.
pub open spec fn map_page_rank(step: MapPageStep) -> nat {
    match step {
        MapPageStep::MapFrame => 0,
        MapPageStep::AllocPageTable => 1,
        MapPageStep::MapPageTable => 2,
        MapPageStep::RemapFrame => 3,
    }
}

/// Mapping a frame never goes back: each step either finishes or moves to
/// a later step, so it finishes after at most four actions.
pub proof fn lemma_map_page_progress(m: MapPage, event: MapPageEvent, page_directory: seL4_CPtr)
    requires
        event_fits(m.step, event),
    ensures
        ({
            let (step, action) = map_page_next(m, event, page_directory);
            action is Done || map_page_rank(step) > map_page_rank(m.step)
        }),
        m.step == MapPageStep::RemapFrame ==> map_page_next(m, event, page_directory).1 is Done,
{
}

/// Every frame mapping asked for while mapping `m` maps the frame `m` was
/// started with, at the address and with the attributes it was started
/// with, into the page directory; a page-table mapping is at that address
/// too, with those attributes.
pub proof fn lemma_map_page_targets(m: MapPage, event: MapPageEvent, page_directory: seL4_CPtr)
    requires
        event_fits(m.step, event),
    ensures
        ({
            let action = map_page_next(m, event, page_directory).1;
            &&& action matches MapPageAction::MapFrame { cap, page_directory: pd, vaddr, attributes }
                ==> cap == m.cap && pd == page_directory && vaddr == m.vaddr && attributes
                == m.cache_attributes
            &&& action matches MapPageAction::MapPageTable { page_table, page_directory: pd, vaddr, attributes }
                ==> pd == page_directory && vaddr == m.vaddr && attributes == m.cache_attributes
                && (event matches MapPageEvent::PageTable(Ok(pt)) && page_table == pt.cptr)
        }),
{
}

/// The retype request of an object asks for exactly the object the caller
/// asked for: its type and its size as given (not the size of the untyped
/// memory it is made from), one object, into the slot, from the untyped
/// memory handed out.
pub proof fn lemma_retype_request_fields(
    a: Allocator,
    slot: seL4_CPtr,
    item_type: seL4_Word,
    size_bits: usize,
    untyped: seL4_CPtr,
)
    ensures
        ({
            let q = retype_request(a, slot, item_type, size_bits, untyped);
            &&& q.size_bits == size_bits as seL4_Word
            &&& q.item_type == item_type
            &&& q.service == untyped
            &&& q.node_offset == slot
            &&& q.num_objects == 1
            &&& q.root == seL4_CapInitThreadCNode
            &&& q.node_index == a.spec_root_cnode()
            &&& q.node_depth == a.spec_root_cnode_depth()
        }),
{
}

/// An allocated object's request retypes the untyped memory it records into
/// its slot, as one object of the type and size the caller asked for; a
/// CNode of `size_bits` slots is asked for with `size_bits`, though it
/// takes untyped memory of `seL4_SlotBits + size_bits` bits.
pub proof fn lemma_object_request(
    old: Allocator,
    new: Allocator,
    obj_type: seL4_Word,
    size_bits: usize,
    r: Result<ObjectRequest, AllocError>,
)
    requires
        object_step(old, new, obj_type, size_bits, r),
        r is Ok,
    ensures
        r->Ok_0.retype.size_bits == size_bits as seL4_Word,
        r->Ok_0.object.size_bits == size_bits as seL4_Word,
        r->Ok_0.retype.item_type == obj_type,
        r->Ok_0.object.item_type == obj_type,
        r->Ok_0.retype.service == r->Ok_0.object.ut,
        r->Ok_0.retype.node_offset == r->Ok_0.object.cptr,
        r->Ok_0.retype.num_objects == 1,
{
}

} // verus!

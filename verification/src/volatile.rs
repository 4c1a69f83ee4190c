//! The volatile registers that the messaging unit is made of.
//!
//! A device changes its registers on its own, and some of its registers act
//! on writes rather than store them, so nothing is stated of what a read
//! gives, nor of what a write leaves behind. What is stated is the access
//! itself: each register keeps a ghost record of the reads and writes made
//! through it, which only its read and write operations extend.
use vcell::VolatileCell;
use vstd::prelude::*;

verus! {

#[verifier::external_type_specification]
#[verifier::external_body]
#[verifier::reject_recursive_types(T)]
pub struct ExVolatileCell<T>(VolatileCell<T>);

/// One access to a register: a read and the value it gave, or a write and
/// the value written.
#[derive(Copy, Clone, PartialEq, Eq, Structural, Debug)]
pub enum CellAccess {
    Read(u32),
    Write(u32),
}

/// The value of access `i` of `log`.
pub open spec fn access_value(log: Seq<CellAccess>, i: int) -> u32 {
    match log[i] {
        CellAccess::Read(v) => v,
        CellAccess::Write(v) => v,
    }
}

/// A 32-bit volatile register, with the record of the accesses made to it.
pub struct VolatileRegister {
    cell: VolatileCell<u32>,
    accesses: Ghost<Seq<CellAccess>>,
}

impl VolatileRegister {
    /// The accesses made through this register, oldest first.
    pub closed spec fn accesses(&self) -> Seq<CellAccess> {
        self.accesses@
    }

    /// `VolatileCell::new`: a register in ordinary memory made with `value`;
    /// no access is recorded yet.
    #[verifier::external_body]
    pub(crate) fn new(value: u32) -> (r: VolatileRegister)
        ensures
            r.accesses() == Seq::<CellAccess>::empty(),
    {
        VolatileRegister { cell: VolatileCell::new(value), accesses: Ghost(Seq::empty()) }
    }

    /// `VolatileCell::get`: one volatile read of the register, recorded with
    /// the value it gave.
    #[verifier::external_body]
    pub(crate) fn get(&mut self) -> (v: u32)
        ensures
            final(self).accesses() == old(self).accesses().push(CellAccess::Read(v)),
    {
        self.cell.get()
    }

    /// `VolatileCell::set`: one volatile write of `v` to the register,
    /// recorded.
    #[verifier::external_body]
    pub(crate) fn set(&mut self, v: u32)
        ensures
            final(self).accesses() == old(self).accesses().push(CellAccess::Write(v)),
    {
        self.cell.set(v)
    }
}

} // verus!

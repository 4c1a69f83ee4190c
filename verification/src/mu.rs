//! Driver of the i.MX6 SoloX messaging unit, side B (the M4 core).
//!
//! The register block is a block of volatile registers: on the M4 it is the
//! memory-mapped block at `MU_B::ptr()`; anywhere else it can be an ordinary
//! block in memory. The device changes its registers on its own, so nothing
//! is assumed of what a read gives. Each register records the reads and
//! writes made through it (see `volatile`), and the driver's contracts say,
//! over those records, which registers each operation reads and writes, what
//! it writes as a function of what it read, and what it returns.
use crate::volatile::{access_value, CellAccess, VolatileRegister};
use vstd::prelude::*;
use vstd::std_specs::convert::FromSpecImpl;
use void::Void;

verus! {

/// One of the four message registers, each with a transmit and a receive half.
#[derive(Copy, Clone, PartialEq, Eq, Structural, PartialOrd, Ord, Hash, Debug)]
pub enum MsgRegister {
    R0,
    R1,
    R2,
    R3,
}

/// Number of a message register.
pub open spec fn msg_index(r: MsgRegister) -> u32 {
    match r {
        MsgRegister::R0 => 0,
        MsgRegister::R1 => 1,
        MsgRegister::R2 => 2,
        MsgRegister::R3 => 3,
    }
}

impl From<MsgRegister> for u32 {
    fn from(r: MsgRegister) -> (n: u32) {
        match r {
            MsgRegister::R0 => 0,
            MsgRegister::R1 => 1,
            MsgRegister::R2 => 2,
            MsgRegister::R3 => 3,
        }
    }
}

impl FromSpecImpl<MsgRegister> for u32 {
    open spec fn obeys_from_spec() -> bool {
        true
    }

    open spec fn from_spec(r: MsgRegister) -> u32 {
        msg_index(r)
    }
}

pub const NUM_RX_REGISTERS: u32 = 4;
pub const NUM_TX_REGISTERS: u32 = 4;

pub const MU_SR_TE0_MASK: u32 = 0x0080_0000;
pub const MU_SR_RF0_MASK: u32 = 0x0800_0000;
pub const MU_SR_GIP0_MASK: u32 = 0x8000_0000;
pub const MU_SR_FUP_MASK: u32 = 0x100;
pub const MU_SR_Fn_MASK: u32 = 0x7;
pub const MU_SR_EP_MASK: u32 = 0x10;
pub const MU_SR_GIPn_MASK: u32 = 0xF000_0000;

pub const MU_CR_GIR0_MASK: u32 = 0x0008_0000;
pub const MU_CR_TIE0_MASK: u32 = 0x0080_0000;
pub const MU_CR_RIE0_MASK: u32 = 0x0800_0000;
pub const MU_CR_GIE0_MASK: u32 = 0x8000_0000;
pub const MU_CR_GIEn_MASK: u32 = 0xF000_0000;
pub const MU_CR_RIEn_MASK: u32 = 0x0F00_0000;
pub const MU_CR_TIEn_MASK: u32 = 0x00F0_0000;
pub const MU_CR_GIRn_MASK: u32 = 0x000F_0000;
pub const MU_CR_Fn_MASK: u32 = 0x7;

/// Transmit register.
pub struct TR {
    register: VolatileRegister,
}

/// Receive register.
pub struct RR {
    register: VolatileRegister,
}

/// Status register (reset value 0x00F0_0080).
pub struct SR {
    register: VolatileRegister,
}

/// Control register.
pub struct CR {
    register: VolatileRegister,
}

/// A register of one side of the messaging unit.
#[derive(Copy, Clone, PartialEq, Eq, Structural, Debug)]
pub enum Register {
    Transmit(MsgRegister),
    Receive(MsgRegister),
    Status,
    Control,
}

/// The registers of one side of the messaging unit, in address order.
pub struct RegisterBlock {
    pub tr0: TR,
    pub tr1: TR,
    pub tr2: TR,
    pub tr3: TR,
    pub rr0: RR,
    pub rr1: RR,
    pub rr2: RR,
    pub rr3: RR,
    pub sr: SR,
    pub cr: CR,
}

/// `log` with a read that gave `v`, then a write of `w`.
pub open spec fn read_write(log: Seq<CellAccess>, v: u32, w: u32) -> Seq<CellAccess> {
    log + seq![CellAccess::Read(v), CellAccess::Write(w)]
}

impl RegisterBlock {
    /// The accesses made to register `reg`, oldest first.
    pub closed spec fn log(&self, reg: Register) -> Seq<CellAccess> {
        match reg {
            Register::Transmit(MsgRegister::R0) => self.tr0.register.accesses(),
            Register::Transmit(MsgRegister::R1) => self.tr1.register.accesses(),
            Register::Transmit(MsgRegister::R2) => self.tr2.register.accesses(),
            Register::Transmit(MsgRegister::R3) => self.tr3.register.accesses(),
            Register::Receive(MsgRegister::R0) => self.rr0.register.accesses(),
            Register::Receive(MsgRegister::R1) => self.rr1.register.accesses(),
            Register::Receive(MsgRegister::R2) => self.rr2.register.accesses(),
            Register::Receive(MsgRegister::R3) => self.rr3.register.accesses(),
            Register::Status => self.sr.register.accesses(),
            Register::Control => self.cr.register.accesses(),
        }
    }

    /// `self` is `old` with one more access to `reg`, `a`, and no other.
    pub open spec fn one_more(&self, old: &RegisterBlock, reg: Register, a: CellAccess) -> bool {
        &&& self.log(reg) == old.log(reg).push(a)
        &&& forall|g: Register| g != reg ==> #[trigger] self.log(g) == old.log(g)
    }

    /// A register block in ordinary memory, its registers made with the
    /// given values; no access is recorded yet.
    pub fn new(tr: [u32; 4], rr: [u32; 4], sr: u32, cr: u32) -> (b: RegisterBlock)
        ensures
            forall|g: Register| #[trigger] b.log(g) == Seq::<CellAccess>::empty(),
    {
        RegisterBlock {
            tr0: TR { register: VolatileRegister::new(tr[0]) },
            tr1: TR { register: VolatileRegister::new(tr[1]) },
            tr2: TR { register: VolatileRegister::new(tr[2]) },
            tr3: TR { register: VolatileRegister::new(tr[3]) },
            rr0: RR { register: VolatileRegister::new(rr[0]) },
            rr1: RR { register: VolatileRegister::new(rr[1]) },
            rr2: RR { register: VolatileRegister::new(rr[2]) },
            rr3: RR { register: VolatileRegister::new(rr[3]) },
            sr: SR { register: VolatileRegister::new(sr) },
            cr: CR { register: VolatileRegister::new(cr) },
        }
    }

    /// Reads the status register.
    pub fn status(&mut self) -> (v: u32)
        ensures
            final(self).one_more(old(self), Register::Status, CellAccess::Read(v)),
    {
        self.sr.register.get()
    }

    /// Reads the control register.
    pub fn control(&mut self) -> (v: u32)
        ensures
            final(self).one_more(old(self), Register::Control, CellAccess::Read(v)),
    {
        self.cr.register.get()
    }

    /// Reads a transmit register.
    pub fn transmitted(&mut self, msg_register: MsgRegister) -> (v: u32)
        ensures
            final(self).one_more(old(self), Register::Transmit(msg_register), CellAccess::Read(v)),
    {
        match msg_register {
            MsgRegister::R0 => self.tr0.register.get(),
            MsgRegister::R1 => self.tr1.register.get(),
            MsgRegister::R2 => self.tr2.register.get(),
            MsgRegister::R3 => self.tr3.register.get(),
        }
    }

    fn rr(&mut self, msg_register: MsgRegister) -> (v: u32)
        ensures
            final(self).one_more(old(self), Register::Receive(msg_register), CellAccess::Read(v)),
    {
        match msg_register {
            MsgRegister::R0 => self.rr0.register.get(),
            MsgRegister::R1 => self.rr1.register.get(),
            MsgRegister::R2 => self.rr2.register.get(),
            MsgRegister::R3 => self.rr3.register.get(),
        }
    }

    fn tr(&mut self, msg_register: MsgRegister, msg: u32)
        ensures
            final(self).one_more(old(self), Register::Transmit(msg_register), CellAccess::Write(msg)),
    {
        match msg_register {
            MsgRegister::R0 => self.tr0.register.set(msg),
            MsgRegister::R1 => self.tr1.register.set(msg),
            MsgRegister::R2 => self.tr2.register.set(msg),
            MsgRegister::R3 => self.tr3.register.set(msg),
        }
    }

    fn set_status(&mut self, v: u32)
        ensures
            final(self).one_more(old(self), Register::Status, CellAccess::Write(v)),
    {
        self.sr.register.set(v)
    }

    fn set_control(&mut self, v: u32)
        ensures
            final(self).one_more(old(self), Register::Control, CellAccess::Write(v)),
    {
        self.cr.register.set(v)
    }
}

#[verifier::external_type_specification]
#[verifier::external_body]
#[verifier::reject_recursive_types(E)]
pub struct ExNbError<E>(nb::Error<E>);

#[verifier::external_type_specification]
#[verifier::external_body]
pub struct ExVoid(Void);

/// `nb::Error::WouldBlock`: the operation cannot complete now.
#[verifier::external_body]
fn would_block() -> nb::Error<Void> {
    nb::Error::WouldBlock
}

/// Side B of the messaging unit: its register block, at `MU_B::ptr()` in
/// the M4's address space.
pub struct MU_B<'a> {
    rb: &'a mut RegisterBlock,
}

impl<'a> MU_B<'a> {
    /// The accesses made to register `reg` of the block, oldest first.
    pub closed spec fn log(&self, reg: Register) -> Seq<CellAccess> {
        self.rb.log(reg)
    }

    /// Side B over the register block `rb`; the block's records go on.
    pub fn new(rb: &'a mut RegisterBlock) -> (m: MU_B<'a>)
        ensures
            forall|g: Register| #[trigger] m.log(g) == old(rb).log(g),
    {
        MU_B { rb }
    }

    /// Address of side B's register block in the M4's address space.
    pub fn ptr() -> (addr: usize)
        ensures
            addr == 0x4229_C000,
    {
        0x4229_C000
    }
}

/// Messaging unit driver over side `MU` of the unit.
pub struct Mu<MU> {
    /// Register block
    rb: MU,
}

/// The bit of register `r` in a field of four bits whose bit for register 0
/// is `mask0` (register 0 the highest).
pub open spec fn msg_bit(mask0: u32, r: MsgRegister) -> u32 {
    mask0 >> msg_index(r)
}

/// The control register after `init`: interrupt enables, requests and flags
/// cleared.
pub open spec fn cr_init(cr: u32) -> u32 {
    cr & !(MU_CR_GIEn_MASK | MU_CR_RIEn_MASK | MU_CR_TIEn_MASK | MU_CR_GIRn_MASK | MU_CR_Fn_MASK)
}

/// The control register that triggers the general-purpose interrupt of `r`.
pub open spec fn cr_trigger(cr: u32, r: MsgRegister) -> u32 {
    (cr & !MU_CR_GIRn_MASK) | msg_bit(MU_CR_GIR0_MASK, r)
}

/// The control register that sets the flags to `flags`.
pub open spec fn cr_with_flags(cr: u32, flags: u32) -> u32 {
    (cr & !(MU_CR_GIRn_MASK | MU_CR_Fn_MASK)) | flags
}

/// The control register after `enable` of the interrupt whose bit for
/// register 0 is `mask0`: all general-purpose interrupt requests cleared and
/// that interrupt enabled for register `n`.
pub open spec fn cr_enable(cr: u32, mask0: u32, n: u32) -> u32 {
    (cr & !MU_CR_GIRn_MASK) | (mask0 >> n)
}

/// The control register after the matching `disable`: requests and the
/// interrupt for register `n` cleared.
pub open spec fn cr_disable(cr: u32, mask0: u32, n: u32) -> u32 {
    cr & !(MU_CR_GIRn_MASK | (mask0 >> n))
}

impl<'a> Mu<MU_B<'a>> {
    /// The accesses made to register `reg`, oldest first.
    pub closed spec fn log(&self, reg: Register) -> Seq<CellAccess> {
        self.rb.rb.log(reg)
    }

    /// The value of access `k` made to `reg` since `old`.
    pub open spec fn value_since(&self, old: &Self, reg: Register, k: int) -> u32 {
        access_value(self.log(reg), old.log(reg).len() + k)
    }

    /// Only register `reg` has new accesses since `old`.
    pub open spec fn only_touches(&self, old: &Self, reg: Register) -> bool {
        forall|g: Register| g != reg ==> #[trigger] self.log(g) == old.log(g)
    }

    /// One read of register `reg` since `old`, and no other access.
    pub open spec fn one_read(&self, old: &Self, reg: Register) -> bool {
        &&& self.log(reg) == old.log(reg).push(CellAccess::Read(self.value_since(old, reg, 0)))
        &&& self.only_touches(old, reg)
    }

    /// One read of the control register since `old`, then a write of what
    /// `f` makes of the value read, and no other access.
    pub open spec fn control_rewritten(&self, old: &Self, w: u32) -> bool {
        &&& self.log(Register::Control) == read_write(
            old.log(Register::Control),
            self.value_since(old, Register::Control, 0),
            w,
        )
        &&& self.only_touches(old, Register::Control)
    }

    pub fn new(mu: MU_B<'a>) -> (m: Self)
        ensures
            forall|g: Register| #[trigger] m.log(g) == mu.log(g),
    {
        Mu { rb: mu }
    }

    /// Clears the general-purpose, receive and transmit interrupt enables,
    /// the general-purpose interrupt requests and the flags.
    pub fn init(&mut self)
        ensures
            final(self).control_rewritten(
                old(self),
                cr_init(final(self).value_since(old(self), Register::Control, 0)),
            ),
    {
        let bits = self.rb.rb.control();
        self.rb.rb.set_control(
            bits & !(MU_CR_GIEn_MASK | MU_CR_RIEn_MASK | MU_CR_TIEn_MASK | MU_CR_GIRn_MASK
                | MU_CR_Fn_MASK),
        );
        assert(self.log(Register::Control) =~= read_write(old(self).log(Register::Control), bits,
            bits & !(MU_CR_GIEn_MASK | MU_CR_RIEn_MASK | MU_CR_TIEn_MASK | MU_CR_GIRn_MASK | MU_CR_Fn_MASK)));
    }

    /// Whether the transmit register `msg_register` is empty: one read of
    /// the status register.
    pub fn is_tx_empty(&mut self, msg_register: MsgRegister) -> (b: bool)
        ensures
            final(self).one_read(old(self), Register::Status),
            b == (final(self).value_since(old(self), Register::Status, 0) & msg_bit(MU_SR_TE0_MASK, msg_register) != 0),
    {
        self.rb.rb.status() & (MU_SR_TE0_MASK >> u32::from(msg_register)) != 0
    }

    /// Whether the receive register `msg_register` is full: one read of the
    /// status register.
    pub fn is_rx_full(&mut self, msg_register: MsgRegister) -> (b: bool)
        ensures
            final(self).one_read(old(self), Register::Status),
            b == (final(self).value_since(old(self), Register::Status, 0) & msg_bit(MU_SR_RF0_MASK, msg_register) != 0),
    {
        self.rb.rb.status() & (MU_SR_RF0_MASK >> u32::from(msg_register)) != 0
    }

    /// Writes `msg` to the transmit register `msg_register` if the status
    /// register reads it as empty; otherwise the call would block and
    /// nothing is written.
    pub fn send_msg(&mut self, msg_register: MsgRegister, msg: u32) -> (r: Result<(), nb::Error<Void>>)
        ensures
            ({
                let sr = final(self).value_since(old(self), Register::Status, 0);
                let empty = sr & msg_bit(MU_SR_TE0_MASK, msg_register) != 0;
                let tx = Register::Transmit(msg_register);
                &&& final(self).log(Register::Status) == old(self).log(Register::Status).push(CellAccess::Read(sr))
                &&& r is Ok <==> empty
                &&& empty ==> final(self).log(tx) == old(self).log(tx).push(CellAccess::Write(msg))
                &&& !empty ==> final(self).log(tx) == old(self).log(tx)
                &&& forall|g: Register| g != Register::Status && g != tx ==> #[trigger] final(self).log(g) == old(self).log(g)
            }),
    {
        let empty = self.is_tx_empty(msg_register);
        let ghost mid = *self;
        if empty {
            self.rb.rb.tr(msg_register, msg);
            proof {
                let tx = Register::Transmit(msg_register);
                assert(mid.log(tx) == old(self).log(tx));
                assert(self.log(Register::Status) == mid.log(Register::Status));
                assert forall|g: Register| g != Register::Status && g != tx implies #[trigger] self.log(g) == old(self).log(g) by {
                    assert(self.log(g) == mid.log(g));
                }
            }
            Ok(())
        } else {
            Err(would_block())
        }
    }

    /// The message read from the receive register `msg_register` if the
    /// status register reads it as full; otherwise the call would block.
    pub fn recv_msg(&mut self, msg_register: MsgRegister) -> (r: Result<u32, nb::Error<Void>>)
        ensures
            ({
                let sr = final(self).value_since(old(self), Register::Status, 0);
                let full = sr & msg_bit(MU_SR_RF0_MASK, msg_register) != 0;
                let rx = Register::Receive(msg_register);
                &&& final(self).log(Register::Status) == old(self).log(Register::Status).push(CellAccess::Read(sr))
                &&& r is Ok <==> full
                &&& full ==> final(self).log(rx) == old(self).log(rx).push(CellAccess::Read(r->Ok_0))
                &&& !full ==> final(self).log(rx) == old(self).log(rx)
                &&& forall|g: Register| g != Register::Status && g != rx ==> #[trigger] final(self).log(g) == old(self).log(g)
            }),
    {
        let full = self.is_rx_full(msg_register);
        let ghost mid = *self;
        if full {
            let m = self.rb.rb.rr(msg_register);
            proof {
                let rx = Register::Receive(msg_register);
                assert(mid.log(rx) == old(self).log(rx));
                assert(self.log(Register::Status) == mid.log(Register::Status));
                assert forall|g: Register| g != Register::Status && g != rx implies #[trigger] self.log(g) == old(self).log(g) by {
                    assert(self.log(g) == mid.log(g));
                }
            }
            Ok(m)
        } else {
            proof {
                assert(self.log(Register::Receive(msg_register)) == old(self).log(Register::Receive(msg_register)));
            }
            Err(would_block())
        }
    }

    /// Whether the other core has accepted every general-purpose interrupt
    /// request for `msg_register`: one read of the control register, whose
    /// request bit reads clear.
    pub fn is_general_int_accepted(&mut self, msg_register: MsgRegister) -> (b: bool)
        ensures
            final(self).one_read(old(self), Register::Control),
            b == (final(self).value_since(old(self), Register::Control, 0) & msg_bit(MU_CR_GIR0_MASK, msg_register) == 0),
    {
        self.rb.rb.control() & (MU_CR_GIR0_MASK >> u32::from(msg_register)) == 0
    }

    /// Triggers a general-purpose interrupt to the other core.
    ///
    /// Returns Ok if the interrupt was triggered
    /// and `nb::Error::WouldBlock` if the interrupt is currently pending.
    pub fn trigger_general_int(&mut self, msg_register: MsgRegister) -> (r: Result<(), nb::Error<Void>>)
        ensures
            ({
                let pending = final(self).value_since(old(self), Register::Control, 0);
                let accepted = pending & msg_bit(MU_CR_GIR0_MASK, msg_register) == 0;
                let cr = final(self).value_since(old(self), Register::Control, 1);
                &&& final(self).only_touches(old(self), Register::Control)
                &&& r is Ok <==> accepted
                &&& accepted ==> final(self).log(Register::Control) == read_write(
                    old(self).log(Register::Control).push(CellAccess::Read(pending)),
                    cr,
                    cr_trigger(cr, msg_register),
                )
                &&& !accepted ==> final(self).log(Register::Control) == old(self).log(Register::Control).push(CellAccess::Read(pending))
            }),
    {
        let accepted = self.is_general_int_accepted(msg_register);
        let ghost mid = *self;
        if accepted {
            let cr = self.rb.rb.control();
            let ghost mid2 = *self;
            let w = (cr & !MU_CR_GIRn_MASK) | (MU_CR_GIR0_MASK >> u32::from(msg_register));
            self.rb.rb.set_control(w);
            proof {
                let n = old(self).log(Register::Control).len() as int;
                assert(self.log(Register::Control) =~= read_write(mid.log(Register::Control), cr, w));
                assert(self.log(Register::Control)[n] == mid.log(Register::Control)[n]);
                assert(self.log(Register::Control)[n + 1] == CellAccess::Read(cr));
                assert forall|g: Register| g != Register::Control implies #[trigger] self.log(g) == old(self).log(g) by {
                    assert(self.log(g) == mid2.log(g));
                    assert(mid2.log(g) == mid.log(g));
                }
            }
            Ok(())
        } else {
            Err(would_block())
        }
    }

    /// Whether an update of the flags is still pending: one read of the
    /// status register.
    pub fn is_flag_pending(&mut self) -> (b: bool)
        ensures
            final(self).one_read(old(self), Register::Status),
            b == (final(self).value_since(old(self), Register::Status, 0) & MU_SR_FUP_MASK != 0),
    {
        self.rb.rb.status() & MU_SR_FUP_MASK != 0
    }

    /// Tries to set the 3-bit flags: when no earlier update of the flags is
    /// pending, writes them, with the general-purpose interrupt requests
    /// cleared; otherwise the call would block and nothing is written.
    pub fn set_flags(&mut self, flags: u32) -> (r: Result<(), nb::Error<Void>>)
        ensures
            ({
                let sr = final(self).value_since(old(self), Register::Status, 0);
                let free = sr & MU_SR_FUP_MASK == 0;
                let cr = final(self).value_since(old(self), Register::Control, 0);
                &&& final(self).log(Register::Status) == old(self).log(Register::Status).push(CellAccess::Read(sr))
                &&& r is Ok <==> free
                &&& free ==> final(self).log(Register::Control) == read_write(
                    old(self).log(Register::Control),
                    cr,
                    cr_with_flags(cr, flags),
                )
                &&& !free ==> final(self).log(Register::Control) == old(self).log(Register::Control)
                &&& forall|g: Register| g != Register::Status && g != Register::Control ==> #[trigger] final(self).log(g) == old(self).log(g)
            }),
    {
        let pending = self.is_flag_pending();
        let ghost mid = *self;
        if !pending {
            let cr = self.rb.rb.control();
            let ghost mid2 = *self;
            let w = (cr & !(MU_CR_GIRn_MASK | MU_CR_Fn_MASK)) | flags;
            self.rb.rb.set_control(w);
            proof {
                assert(mid.log(Register::Control) == old(self).log(Register::Control));
                assert(self.log(Register::Control) =~= read_write(old(self).log(Register::Control), cr, w));
                assert(self.log(Register::Status) == mid.log(Register::Status));
                assert forall|g: Register| g != Register::Status && g != Register::Control implies #[trigger] self.log(g) == old(self).log(g) by {
                    assert(self.log(g) == mid2.log(g));
                    assert(mid2.log(g) == mid.log(g));
                }
            }
            Ok(())
        } else {
            proof {
                assert(self.log(Register::Control) == old(self).log(Register::Control));
            }
            Err(would_block())
        }
    }

    /// The 3-bit flags set by the other core: one read of the status register.
    pub fn flags(&mut self) -> (f: u32)
        ensures
            final(self).one_read(old(self), Register::Status),
            f == final(self).value_since(old(self), Register::Status, 0) & MU_SR_Fn_MASK,
    {
        self.rb.rb.status() & MU_SR_Fn_MASK
    }

    /// Enables the transmit-empty interrupt of `msg_register`: one read and one write
    /// of the control register.
    pub fn enable_tx_empty_int(&mut self, msg_register: MsgRegister)
        ensures
            final(self).control_rewritten(
                old(self),
                cr_enable(final(self).value_since(old(self), Register::Control, 0), MU_CR_TIE0_MASK, msg_index(msg_register)),
            ),
    {
        let cr = self.rb.rb.control();
        self.rb.rb.set_control((cr & !MU_CR_GIRn_MASK) | (MU_CR_TIE0_MASK >> u32::from(msg_register)));
        assert(self.log(Register::Control) =~= read_write(old(self).log(Register::Control), cr,
            cr_enable(cr, MU_CR_TIE0_MASK, msg_index(msg_register))));
    }

    /// Disables the transmit-empty interrupt of `msg_register`: one read and one write
    /// of the control register.
    pub fn disable_tx_empty_int(&mut self, msg_register: MsgRegister)
        ensures
            final(self).control_rewritten(
                old(self),
                cr_disable(final(self).value_since(old(self), Register::Control, 0), MU_CR_TIE0_MASK, msg_index(msg_register)),
            ),
    {
        let cr = self.rb.rb.control();
        self.rb.rb.set_control(cr & !(MU_CR_GIRn_MASK | (MU_CR_TIE0_MASK >> u32::from(msg_register))));
        assert(self.log(Register::Control) =~= read_write(old(self).log(Register::Control), cr,
            cr_disable(cr, MU_CR_TIE0_MASK, msg_index(msg_register))));
    }

    /// Enables the receive-full interrupt of `msg_register`: one read and one write
    /// of the control register.
    pub fn enable_rx_full_int(&mut self, msg_register: MsgRegister)
        ensures
            final(self).control_rewritten(
                old(self),
                cr_enable(final(self).value_since(old(self), Register::Control, 0), MU_CR_RIE0_MASK, msg_index(msg_register)),
            ),
    {
        let cr = self.rb.rb.control();
        self.rb.rb.set_control((cr & !MU_CR_GIRn_MASK) | (MU_CR_RIE0_MASK >> u32::from(msg_register)));
        assert(self.log(Register::Control) =~= read_write(old(self).log(Register::Control), cr,
            cr_enable(cr, MU_CR_RIE0_MASK, msg_index(msg_register))));
    }

    /// Disables the receive-full interrupt of `msg_register`: one read and one write
    /// of the control register.
    pub fn disable_rx_full_int(&mut self, msg_register: MsgRegister)
        ensures
            final(self).control_rewritten(
                old(self),
                cr_disable(final(self).value_since(old(self), Register::Control, 0), MU_CR_RIE0_MASK, msg_index(msg_register)),
            ),
    {
        let cr = self.rb.rb.control();
        self.rb.rb.set_control(cr & !(MU_CR_GIRn_MASK | (MU_CR_RIE0_MASK >> u32::from(msg_register))));
        assert(self.log(Register::Control) =~= read_write(old(self).log(Register::Control), cr,
            cr_disable(cr, MU_CR_RIE0_MASK, msg_index(msg_register))));
    }

    /// Enables the general-purpose interrupt of `msg_register`: one read and one write
    /// of the control register.
    pub fn enable_general_int(&mut self, msg_register: MsgRegister)
        ensures
            final(self).control_rewritten(
                old(self),
                cr_enable(final(self).value_since(old(self), Register::Control, 0), MU_CR_GIE0_MASK, msg_index(msg_register)),
            ),
    {
        let cr = self.rb.rb.control();
        self.rb.rb.set_control((cr & !MU_CR_GIRn_MASK) | (MU_CR_GIE0_MASK >> u32::from(msg_register)));
        assert(self.log(Register::Control) =~= read_write(old(self).log(Register::Control), cr,
            cr_enable(cr, MU_CR_GIE0_MASK, msg_index(msg_register))));
    }

    /// Disables the general-purpose interrupt of `msg_register`: one read and one write
    /// of the control register.
    pub fn disable_general_int(&mut self, msg_register: MsgRegister)
        ensures
            final(self).control_rewritten(
                old(self),
                cr_disable(final(self).value_since(old(self), Register::Control, 0), MU_CR_GIE0_MASK, msg_index(msg_register)),
            ),
    {
        let cr = self.rb.rb.control();
        self.rb.rb.set_control(cr & !(MU_CR_GIRn_MASK | (MU_CR_GIE0_MASK >> u32::from(msg_register))));
        assert(self.log(Register::Control) =~= read_write(old(self).log(Register::Control), cr,
            cr_disable(cr, MU_CR_GIE0_MASK, msg_index(msg_register))));
    }

    /// Whether the general-purpose interrupt of `msg_register` is pending:
    /// one read of the status register.
    pub fn is_general_int_pending(&mut self, msg_register: MsgRegister) -> (b: bool)
        ensures
            final(self).one_read(old(self), Register::Status),
            b == (final(self).value_since(old(self), Register::Status, 0) & msg_bit(MU_SR_GIP0_MASK, msg_register) != 0),
    {
        self.rb.rb.status() & (MU_SR_GIP0_MASK >> u32::from(msg_register)) != 0
    }

    /// Clears the pending flag of the general-purpose interrupt of
    /// `msg_register`. The pending flags are cleared by writing 1 to them, so
    /// the one word written to the status register holds 1 in that flag's
    /// bit only.
    pub fn clear_general_int_pending(&mut self, msg_register: MsgRegister)
        ensures
            final(self).log(Register::Status) == old(self).log(Register::Status).push(
                CellAccess::Write(msg_bit(MU_SR_GIP0_MASK, msg_register)),
            ),
            final(self).only_touches(old(self), Register::Status),
    {
        self.rb.rb.set_status(MU_SR_GIP0_MASK >> u32::from(msg_register));
    }

    /// Whether an event is pending; to make sure that events have reached the
    /// other side before entering STOP mode, check this first (one read of
    /// the status register).
    pub fn is_event_pending(&mut self) -> (b: bool)
        ensures
            final(self).one_read(old(self), Register::Status),
            b == (final(self).value_since(old(self), Register::Status, 0) & MU_SR_EP_MASK != 0),
    {
        self.rb.rb.status() & MU_SR_EP_MASK != 0
    }
}

/// The masks of the three per-register interrupt enables, for register 0.
pub open spec fn is_int_enable_mask(mask0: u32) -> bool {
    mask0 == MU_CR_TIE0_MASK || mask0 == MU_CR_RIE0_MASK || mask0 == MU_CR_GIE0_MASK
}

/// Enabling an interrupt of a message register sets its enable bit and clears
/// every general-purpose interrupt request; disabling it clears that bit and
/// the requests; the enable bits of the other registers stay as they were.
pub proof fn lemma_enable_disable_bits(cr: u32, mask0: u32, n: u32, k: u32)
    requires
        is_int_enable_mask(mask0),
        n < 4,
        k < 4,
    ensures
        cr_enable(cr, mask0, n) & (mask0 >> n) != 0,
        cr_enable(cr, mask0, n) & MU_CR_GIRn_MASK == 0,
        cr_disable(cr, mask0, n) & (mask0 >> n) == 0,
        cr_disable(cr, mask0, n) & MU_CR_GIRn_MASK == 0,
        k != n ==> cr_enable(cr, mask0, n) & (mask0 >> k) == cr & (mask0 >> k),
        k != n ==> cr_disable(cr, mask0, n) & (mask0 >> k) == cr & (mask0 >> k),
{
    assert(cr_enable(cr, mask0, n) & (mask0 >> n) != 0 && cr_enable(cr, mask0, n) & 0x000F_0000u32
        == 0 && cr_disable(cr, mask0, n) & (mask0 >> n) == 0 && cr_disable(cr, mask0, n)
        & 0x000F_0000u32 == 0 && (k != n ==> cr_enable(cr, mask0, n) & (mask0 >> k) == cr & (mask0
        >> k)) && (k != n ==> cr_disable(cr, mask0, n) & (mask0 >> k) == cr & (mask0 >> k)))
        by (bit_vector)
        requires
            mask0 == 0x0080_0000u32 || mask0 == 0x0800_0000u32 || mask0 == 0x8000_0000u32,
            n < 4u32,
            k < 4u32,
    ;
}

/// Disabling an interrupt right after enabling it leaves the control register
/// as disabling alone would have.
pub proof fn lemma_disable_after_enable(cr: u32, mask0: u32, n: u32)
    requires
        is_int_enable_mask(mask0),
        n < 4,
    ensures
        cr_disable(cr_enable(cr, mask0, n), mask0, n) == cr_disable(cr, mask0, n),
{
    assert(cr_disable(cr_enable(cr, mask0, n), mask0, n) == cr_disable(cr, mask0, n))
        by (bit_vector)
        requires
            mask0 == 0x0080_0000u32 || mask0 == 0x0800_0000u32 || mask0 == 0x8000_0000u32,
            n < 4u32,
    ;
}

/// The word that clears the pending flag of general-purpose interrupt `n`
/// writes 1 to that flag and to no other pending flag.
pub proof fn lemma_clear_pending_word(n: u32, k: u32)
    requires
        n < 4,
        k < 4,
    ensures
        (MU_SR_GIP0_MASK >> n) & MU_SR_GIPn_MASK == MU_SR_GIP0_MASK >> n,
        (MU_SR_GIP0_MASK >> n) & (MU_SR_GIP0_MASK >> n) != 0,
        k != n ==> (MU_SR_GIP0_MASK >> n) & (MU_SR_GIP0_MASK >> k) == 0,
{
    assert((0x8000_0000u32 >> n) & 0xF000_0000u32 == 0x8000_0000u32 >> n && (0x8000_0000u32 >> n)
        & (0x8000_0000u32 >> n) != 0 && (k != n ==> (0x8000_0000u32 >> n) & (0x8000_0000u32 >> k)
        == 0)) by (bit_vector)
        requires
            n < 4u32,
            k < 4u32,
    ;
}

/// Register `r`'s bit of each four-bit field is the field's highest bit
/// shifted down by the register's number: transmit-empty at bit 23 - n,
/// receive-full at 27 - n, general-purpose pending at 31 - n in the status
/// register; request at 19 - n and the enables at 23 - n, 27 - n, 31 - n in
/// the control register.
pub proof fn lemma_msg_bits(r: MsgRegister)
    ensures
        msg_bit(MU_SR_TE0_MASK, r) == 1u32 << (23 - msg_index(r)) as u32,
        msg_bit(MU_SR_RF0_MASK, r) == 1u32 << (27 - msg_index(r)) as u32,
        msg_bit(MU_SR_GIP0_MASK, r) == 1u32 << (31 - msg_index(r)) as u32,
        msg_bit(MU_CR_GIR0_MASK, r) == 1u32 << (19 - msg_index(r)) as u32,
        msg_bit(MU_CR_TIE0_MASK, r) == 1u32 << (23 - msg_index(r)) as u32,
        msg_bit(MU_CR_RIE0_MASK, r) == 1u32 << (27 - msg_index(r)) as u32,
        msg_bit(MU_CR_GIE0_MASK, r) == 1u32 << (31 - msg_index(r)) as u32,
{
    let n = msg_index(r);
    let a = (23 - n) as u32;
    let b = (27 - n) as u32;
    let c = (31 - n) as u32;
    let d = (19 - n) as u32;
    assert((0x0080_0000u32 >> n) == (1u32 << a) && (0x0800_0000u32 >> n) == (1u32 << b)
        && (0x8000_0000u32 >> n) == (1u32 << c) && (0x0008_0000u32 >> n) == (1u32 << d))
        by (bit_vector)
        requires
            n < 4u32,
            a == 23u32 - n,
            b == 27u32 - n,
            c == 31u32 - n,
            d == 19u32 - n,
    ;
}

/// Enabling or disabling an interrupt of register `n` changes no bit of the
/// control register but the general-purpose requests and that interrupt's
/// own enable bit.
pub proof fn lemma_enable_disable_only_their_bit(cr: u32, mask0: u32, n: u32)
    requires
        is_int_enable_mask(mask0),
        n < 4,
    ensures
        cr_enable(cr, mask0, n) & !(MU_CR_GIRn_MASK | (mask0 >> n)) == cr & !(MU_CR_GIRn_MASK | (
        mask0 >> n)),
        cr_disable(cr, mask0, n) & !(MU_CR_GIRn_MASK | (mask0 >> n)) == cr & !(MU_CR_GIRn_MASK | (
        mask0 >> n)),
{
    assert(((cr & !0x000F_0000u32) | (mask0 >> n)) & !(0x000F_0000u32 | (mask0 >> n)) == cr & !(
    0x000F_0000u32 | (mask0 >> n)) && (cr & !(0x000F_0000u32 | (mask0 >> n))) & !(0x000F_0000u32
        | (mask0 >> n)) == cr & !(0x000F_0000u32 | (mask0 >> n))) by (bit_vector);
}

/// `init` clears bits 16..31 and 0..2 of the control register and keeps
/// bits 3..15; doing it twice is doing it once.
pub proof fn lemma_init_word(cr: u32)
    ensures
        cr_init(cr) == cr & 0x0000_FFF8,
        cr_init(cr_init(cr)) == cr_init(cr),
{
    assert((cr & !(0xF000_0000u32 | 0x0F00_0000u32 | 0x00F0_0000u32 | 0x000F_0000u32 | 0x7u32))
        == cr & 0x0000_FFF8u32 && ((cr & 0x0000_FFF8u32) & 0x0000_FFF8u32) == cr & 0x0000_FFF8u32)
        by (bit_vector);
    let c2 = cr & 0x0000_FFF8u32;
    assert((c2 & !(0xF000_0000u32 | 0x0F00_0000u32 | 0x00F0_0000u32 | 0x000F_0000u32 | 0x7u32))
        == c2 & 0x0000_FFF8u32) by (bit_vector);
}

/// Triggering the general-purpose interrupt of `r` leaves exactly its
/// request set among the requests, and every other control bit as it was.
pub proof fn lemma_trigger_word(cr: u32, r: MsgRegister)
    ensures
        cr_trigger(cr, r) & MU_CR_GIRn_MASK == msg_bit(MU_CR_GIR0_MASK, r),
        cr_trigger(cr, r) & !MU_CR_GIRn_MASK == cr & !MU_CR_GIRn_MASK,
        msg_bit(MU_CR_GIR0_MASK, r) == 1u32 << (19 - msg_index(r)) as u32,
{
    lemma_msg_bits(r);
    let n = msg_index(r);
    assert(((cr & !0x000F_0000u32) | (0x0008_0000u32 >> n)) & 0x000F_0000u32 == 0x0008_0000u32 >> n
        && ((cr & !0x000F_0000u32) | (0x0008_0000u32 >> n)) & !0x000F_0000u32 == cr
        & !0x000F_0000u32) by (bit_vector)
        requires
            n < 4u32,
    ;
}

/// Setting 3-bit flags makes the flag bits hold them, clears the
/// general-purpose requests and keeps every other control bit.
pub proof fn lemma_flags_word(cr: u32, flags: u32)
    requires
        flags <= MU_CR_Fn_MASK,
    ensures
        cr_with_flags(cr, flags) & MU_CR_Fn_MASK == flags,
        cr_with_flags(cr, flags) & MU_CR_GIRn_MASK == 0,
        cr_with_flags(cr, flags) & 0xFFF0_FFF8 == cr & 0xFFF0_FFF8,
{
    assert(((cr & !(0x000F_0000u32 | 0x7u32)) | flags) & 0x7u32 == flags && ((cr & !(0x000F_0000u32
        | 0x7u32)) | flags) & 0x000F_0000u32 == 0 && ((cr & !(0x000F_0000u32 | 0x7u32)) | flags)
        & 0xFFF0_FFF8u32 == cr & 0xFFF0_FFF8u32) by (bit_vector)
        requires
            flags <= 7u32,
    ;
}

} // verus!

//! Platform layer of the M4 side of rpmsg-lite on the i.MX6 SoloX.
use vstd::prelude::*;

verus! {

pub const SYSTEM_CORE_CLOCK: u32 = 227_000_000;

/// Interrupts from the M4's (core B) perspective
#[derive(Copy, Clone, PartialEq, Eq, Structural, Debug)]
pub enum Interrupt {
    /// MU interrupt to the A9 core, 90
    MU_A9,
    /// MU interrupt to the M4 core, 99
    MU_M4,
}

impl Interrupt {
    /// The interrupt's number in the M4's NVIC.
    pub fn nr(&self) -> (n: u8)
        ensures
            n == (match *self {
                Interrupt::MU_A9 => 90u8,
                Interrupt::MU_M4 => 99u8,
            }),
    {
        match *self {
            Interrupt::MU_A9 => 90,
            Interrupt::MU_M4 => 99,
        }
    }
}

/// Number of busy-loop rounds, of three cycles each at
/// `SYSTEM_CORE_CLOCK`, in one millisecond.
pub const LOOPS_PER_MS: u32 = SYSTEM_CORE_CLOCK / 3 / 1000;

/// Number of busy-loop rounds, of three cycles each, that make a delay of
/// `ms` milliseconds at `SYSTEM_CORE_CLOCK`.
pub fn time_delay_loops(ms: u32) -> (n: u32)
    requires
        LOOPS_PER_MS * ms <= u32::MAX,
    ensures
        n == LOOPS_PER_MS * ms,
        n == 75_666 * ms,
{
    assert(LOOPS_PER_MS == 75_666);
    LOOPS_PER_MS * ms
}

/// A longer delay takes more rounds.
pub proof fn lemma_delay_monotone(a: u32, b: u32)
    requires
        a <= b,
    ensures
        LOOPS_PER_MS * a <= LOOPS_PER_MS * b,
{
    assert(LOOPS_PER_MS * a <= LOOPS_PER_MS * b) by (nonlinear_arith)
        requires
            a <= b,
            LOOPS_PER_MS == 75_666,
    ;
}

} // verus!

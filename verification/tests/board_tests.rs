use solox::devices::{
    ccgr3_enable_m4_clock, src_scr_enable_m4_in_reset, src_scr_release_m4_reset,
    src_scr_reset_pending, CCM_CCGR3_OFFSET, M4_TCM_SIZE,
};
use solox::platform::{time_delay_loops, Interrupt};
use solox::root_task::{
    stack_alignment_requirement, thread_stack_top, ThreadData, THREAD_STACK_SIZE,
};

#[test]
fn m4_start_sequence_bits() {
    assert_eq!(ccgr3_enable_m4_clock(0x0000_0003), 0x0000_000F);
    let scr = src_scr_enable_m4_in_reset(0x0000_0001);
    assert_eq!(scr, 0x0040_0011);
    assert_eq!(src_scr_release_m4_reset(scr), 0x0040_0001);
    assert!(src_scr_reset_pending(0x8));
    assert!(!src_scr_reset_pending(0x0040_0001));
    assert_eq!(M4_TCM_SIZE, 32 * 1024);
}

#[test]
fn interrupt_numbers() {
    assert_eq!(Interrupt::MU_A9.nr(), 90);
    assert_eq!(Interrupt::MU_M4.nr(), 99);
}

#[test]
fn delay_loop_counts() {
    assert_eq!(time_delay_loops(0), 0);
    assert_eq!(time_delay_loops(1), 75666);
    assert_eq!(time_delay_loops(2), 151332);
    assert_eq!(time_delay_loops(10), 756660);
    assert_eq!(time_delay_loops(56761), 75666 * 56761);
}

#[test]
fn thread_stack_checks() {
    assert_eq!(stack_alignment_requirement(), 8);
    assert_eq!(thread_stack_top(0x1000, THREAD_STACK_SIZE), Some(0x2000));
    assert_eq!(thread_stack_top(0x1000, 256), None);
    assert_eq!(thread_stack_top(0x1000, 1004), None);
    assert_eq!(thread_stack_top(0x1004, 1024), None);
    assert_eq!(thread_stack_top(usize::MAX - 16, 4096), None);
}

#[test]
fn thread_register_addresses() {
    let t = ThreadData { src_vaddr: 0x1000_0000, ccm_vaddr: 0x1000_1000, tcm_vaddr: 0x1000_2000 };
    assert_eq!(t.src_scr_vaddr(), 0x1000_0000);
    assert_eq!(t.ccm_ccgr3_vaddr(), 0x1000_1000 + CCM_CCGR3_OFFSET);
}

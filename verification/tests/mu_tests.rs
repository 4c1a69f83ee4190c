use solox::mu::{
    MsgRegister, Mu, RegisterBlock, MU_B, MU_CR_GIE0_MASK, MU_CR_GIR0_MASK, MU_CR_GIRn_MASK,
    MU_CR_RIE0_MASK, MU_CR_TIE0_MASK, MU_SR_EP_MASK, MU_SR_FUP_MASK, MU_SR_GIP0_MASK,
    MU_SR_RF0_MASK, MU_SR_TE0_MASK,
};

fn block(sr: u32, cr: u32) -> RegisterBlock {
    RegisterBlock::new([0; 4], [10, 11, 12, 13], sr, cr)
}

#[test]
fn register_numbers() {
    assert_eq!(u32::from(MsgRegister::R0), 0);
    assert_eq!(u32::from(MsgRegister::R1), 1);
    assert_eq!(u32::from(MsgRegister::R2), 2);
    assert_eq!(u32::from(MsgRegister::R3), 3);
}

#[test]
fn mu_b_address() {
    assert_eq!(MU_B::ptr(), 0x4229_C000);
}

#[test]
fn init_clears_enables_requests_and_flags() {
    let mut rb = block(0, 0xFFFF_FFFF);
    {
        let mut mu = Mu::new(MU_B::new(&mut rb));
        mu.init();
    }
    assert_eq!(rb.control(), 0x0000_FFF8);
}

#[test]
fn send_when_tx_empty() {
    let mut rb = block(MU_SR_TE0_MASK >> 2, 0);
    {
        let mut mu = Mu::new(MU_B::new(&mut rb));
        assert!(mu.is_tx_empty(MsgRegister::R2));
        assert!(!mu.is_tx_empty(MsgRegister::R0));
        assert!(mu.send_msg(MsgRegister::R2, 0xCAFE).is_ok());
        assert!(matches!(mu.send_msg(MsgRegister::R0, 7), Err(nb::Error::WouldBlock)));
    }
    assert_eq!(rb.transmitted(MsgRegister::R2), 0xCAFE);
    assert_eq!(rb.transmitted(MsgRegister::R0), 0);
}

#[test]
fn receive_when_rx_full() {
    let mut rb = block(MU_SR_RF0_MASK >> 1, 0);
    let mut mu = Mu::new(MU_B::new(&mut rb));
    assert!(mu.is_rx_full(MsgRegister::R1));
    assert_eq!(mu.recv_msg(MsgRegister::R1).ok(), Some(11));
    assert!(matches!(mu.recv_msg(MsgRegister::R3), Err(nb::Error::WouldBlock)));
}

#[test]
fn trigger_general_interrupt() {
    let mut rb = block(0, 0x5);
    {
        let mut mu = Mu::new(MU_B::new(&mut rb));
        assert!(mu.is_general_int_accepted(MsgRegister::R3));
        assert!(mu.trigger_general_int(MsgRegister::R3).is_ok());
    }
    assert_eq!(rb.control(), (MU_CR_GIR0_MASK >> 3) | 0x5);

    // a request for R1 still pending in the control register blocks
    let mut rb = block(0, (MU_CR_GIR0_MASK >> 1) | 0x1234);
    {
        let mut mu = Mu::new(MU_B::new(&mut rb));
        assert!(!mu.is_general_int_accepted(MsgRegister::R1));
        assert!(matches!(mu.trigger_general_int(MsgRegister::R1), Err(nb::Error::WouldBlock)));
    }
    assert_eq!(rb.control(), (MU_CR_GIR0_MASK >> 1) | 0x1234);

    // a pending request for another register is replaced
    let mut rb = block(MU_CR_GIR0_MASK, MU_CR_GIR0_MASK >> 2);
    {
        let mut mu = Mu::new(MU_B::new(&mut rb));
        assert!(mu.trigger_general_int(MsgRegister::R0).is_ok());
    }
    assert_eq!(rb.control(), MU_CR_GIR0_MASK);
}

#[test]
fn flags_only_when_no_update_pending() {
    let mut rb = block(0x6, MU_CR_GIRn_MASK | 0x1);
    {
        let mut mu = Mu::new(MU_B::new(&mut rb));
        assert!(!mu.is_flag_pending());
        assert_eq!(mu.flags(), 0x6);
        assert!(mu.set_flags(0x3).is_ok());
    }
    assert_eq!(rb.control(), 0x3);

    let mut rb = block(MU_SR_FUP_MASK, 0x1);
    {
        let mut mu = Mu::new(MU_B::new(&mut rb));
        assert!(mu.is_flag_pending());
        assert!(matches!(mu.set_flags(0x3), Err(nb::Error::WouldBlock)));
    }
    assert_eq!(rb.control(), 0x1);
}

#[test]
fn enable_and_disable_interrupts() {
    let mut rb = block(0, MU_CR_GIRn_MASK | 0x1);
    {
        let mut mu = Mu::new(MU_B::new(&mut rb));
        mu.enable_tx_empty_int(MsgRegister::R1);
        mu.enable_rx_full_int(MsgRegister::R2);
        mu.enable_general_int(MsgRegister::R0);
    }
    assert_eq!(
        rb.control(),
        (MU_CR_TIE0_MASK >> 1) | (MU_CR_RIE0_MASK >> 2) | MU_CR_GIE0_MASK | 0x1
    );
    {
        let mut mu = Mu::new(MU_B::new(&mut rb));
        mu.disable_tx_empty_int(MsgRegister::R1);
        mu.disable_rx_full_int(MsgRegister::R2);
        mu.disable_general_int(MsgRegister::R0);
    }
    assert_eq!(rb.control(), 0x1);
}

#[test]
fn disable_after_enable_is_disable() {
    let start = 0x0A0B_0C0D;
    let mut a = block(0, start);
    let mut b = block(0, start);
    {
        let mut mu = Mu::new(MU_B::new(&mut a));
        mu.enable_rx_full_int(MsgRegister::R3);
        mu.disable_rx_full_int(MsgRegister::R3);
    }
    {
        let mut mu = Mu::new(MU_B::new(&mut b));
        mu.disable_rx_full_int(MsgRegister::R3);
    }
    assert_eq!(a.control(), b.control());
}

#[test]
fn general_interrupt_pending_and_clear() {
    let mut rb = block(MU_SR_GIP0_MASK >> 2 | MU_SR_EP_MASK, 0);
    {
        let mut mu = Mu::new(MU_B::new(&mut rb));
        assert!(mu.is_general_int_pending(MsgRegister::R2));
        assert!(!mu.is_general_int_pending(MsgRegister::R0));
        assert!(mu.is_event_pending());
        mu.clear_general_int_pending(MsgRegister::R1);
    }
    // the one word written holds 1 in R1's pending flag only (in ordinary
    // memory the word simply stays; the device would clear the flag)
    assert_eq!(rb.status(), MU_SR_GIP0_MASK >> 1);
}

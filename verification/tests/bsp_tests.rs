use solox::bsp::{
    decode_pad, gpio_pad_writes, putchar, putstr, uart_brm_denominator, uart_brm_numerator,
    uart_fifo_control, uart_one_ms, uart_ucr2_8n1, uart_ucr2_enable, uart_usr1_clear,
    uart_usr2_clear, PadSetting, RegisterWrite, IOMUX_BASE_ADDR, MX6SLX_PAD_GPIO1_IO06_UART2_TX,
    MX6SLX_PAD_GPIO1_IO07_UART2_RX, UART2_BAUD, UART2_CLOCK_FREQ, UART2_UTXD,
};

#[test]
fn uart2_tx_pad() {
    let p = decode_pad(MX6SLX_PAD_GPIO1_IO06_UART2_TX);
    assert_eq!(
        p,
        PadSetting {
            mux_ctrl_ofs: 0x2C,
            mux_mode: 0,
            sel_input_ofs: 0x838,
            sel_input: 0,
            pad_ctrl_ofs: 0x374,
            pad_ctrl: 0x20000,
        }
    );
    assert_eq!(
        gpio_pad_writes(MX6SLX_PAD_GPIO1_IO06_UART2_TX),
        vec![
            RegisterWrite { addr: IOMUX_BASE_ADDR + 0x2C, value: 0 },
            RegisterWrite { addr: IOMUX_BASE_ADDR + 0x838, value: 0 },
        ]
    );
}

#[test]
fn uart2_rx_pad() {
    assert_eq!(
        gpio_pad_writes(MX6SLX_PAD_GPIO1_IO07_UART2_RX),
        vec![
            RegisterWrite { addr: 0x420E_0030, value: 0 },
            RegisterWrite { addr: 0x420E_0838, value: 1 },
        ]
    );
}

#[test]
fn pad_with_pad_control() {
    let pad: u64 = 0x10 | (0x300 << 12) | (0 << 24) | (5u64 << 36) | (0x1B0B0u64 << 41) | (2u64 << 59);
    assert_eq!(
        gpio_pad_writes(pad),
        vec![
            RegisterWrite { addr: IOMUX_BASE_ADDR + 0x10, value: 5 },
            RegisterWrite { addr: IOMUX_BASE_ADDR + 0x300, value: 0x1B0B0 },
        ]
    );
    assert!(gpio_pad_writes(0).is_empty());
}

#[test]
fn uart_register_values() {
    assert_eq!(uart_fifo_control(), 0xA01);
    assert_eq!(uart_one_ms(UART2_CLOCK_FREQ), 40000);
    assert_eq!(uart_brm_numerator(UART2_BAUD), 1151);
    assert_eq!(uart_brm_denominator(UART2_CLOCK_FREQ), 24999);
    assert_eq!(uart_ucr2_8n1(0x0000_0140), 0x0000_4020);
    assert_eq!(uart_ucr2_8n1(0), 0x0000_4020);
    assert_eq!(uart_ucr2_enable(0x4020), 0x4027);
    assert_eq!(uart_usr2_clear(0), 0x9197);
    assert_eq!(uart_usr1_clear(0), 0x9C30);
    assert_eq!(UART2_UTXD, 0x421E_8040);
}

#[test]
fn newline_goes_out_as_cr_lf() {
    assert_eq!(putchar('\n'), vec![0x0D, 0x0A]);
    assert_eq!(putchar('H'), vec![0x48]);
    assert_eq!(putchar('é'), vec![0xE9]);
}

#[test]
fn string_goes_out_char_by_char() {
    assert_eq!(putstr("Hi\n"), vec![0x48, 0x69, 0x0D, 0x0A]);
    assert_eq!(putstr(""), Vec::<u32>::new());
    let banner = putstr("M4 core is up and running\n\n");
    assert_eq!(banner.len(), 25 + 4);
    assert_eq!(&banner[banner.len() - 4..], &[0x0D, 0x0A, 0x0D, 0x0A]);
    let mut both = putstr("ab");
    both.extend(putstr("c\n"));
    assert_eq!(both, putstr("abc\n"));
}

#[test]
fn pad_fields_round_trip() {
    let p = PadSetting {
        mux_ctrl_ofs: 0xABC,
        mux_mode: 0x15,
        sel_input_ofs: 0x123,
        sel_input: 0x9,
        pad_ctrl_ofs: 0x456,
        pad_ctrl: 0x2_1234,
    };
    let pad: u64 = (p.mux_ctrl_ofs as u64)
        | ((p.pad_ctrl_ofs as u64) << 12)
        | ((p.sel_input_ofs as u64) << 24)
        | ((p.mux_mode as u64) << 36)
        | ((p.pad_ctrl as u64) << 41)
        | ((p.sel_input as u64) << 59);
    assert_eq!(decode_pad(pad), p);
}

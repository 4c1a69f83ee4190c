//! Board support of the M4 firmware: IOMUX pad settings and the UART2
//! register values, computed here and written to the hardware by the firmware.
use vstd::prelude::*;

verus! {

pub const UART2_BAUD: u32 = 115200;
pub const UART2_CLOCK_FREQ: u32 = 80000000;

// see 65.15 UART Memory Map/Register Definition in the TRM
pub const M4_OFFSET: u32 = 0x40000000;
pub const AIPS_TZ2_BASE_ADDR: u32 = 0x02100000 + M4_OFFSET;
pub const AIPS2_OFF_BASE_ADDR: u32 = AIPS_TZ2_BASE_ADDR + 0x80000;
pub const UART2_IPS_BASE_ADDR: u32 = AIPS2_OFF_BASE_ADDR + 0x68000;

pub const IOMUX_BASE_ADDR: u32 = 0x420E0000;
pub const IOMUX_NO_PAD_CTRL: u32 = 0x20000;

/// Pad setting of GPIO1_IO06 as UART2 TX.
pub const MX6SLX_PAD_GPIO1_IO06_UART2_TX: u64 = 0x002C | (0x0374 << 12) | (0x0838 << 24) | (0x20000 << 41);

/// Pad setting of GPIO1_IO07 as UART2 RX.
pub const MX6SLX_PAD_GPIO1_IO07_UART2_RX: u64 = 0x0030 | (0x0378 << 12) | (0x0838 << 24) | (0x20000 << 41) | (1 << 59);

pub const UART2_UTXD: u32 = UART2_IPS_BASE_ADDR + 0x40;
pub const UART2_UCR1: u32 = UART2_IPS_BASE_ADDR + 0x80;
pub const UART2_UCR2: u32 = UART2_IPS_BASE_ADDR + 0x84;
pub const UART2_UCR3: u32 = UART2_IPS_BASE_ADDR + 0x88;
pub const UART2_UCR4: u32 = UART2_IPS_BASE_ADDR + 0x8C;
pub const UART2_UFCR: u32 = UART2_IPS_BASE_ADDR + 0x90;
pub const UART2_USR1: u32 = UART2_IPS_BASE_ADDR + 0x94;
pub const UART2_USR2: u32 = UART2_IPS_BASE_ADDR + 0x98;
pub const UART2_UESC: u32 = UART2_IPS_BASE_ADDR + 0x9C;
pub const UART2_UTIM: u32 = UART2_IPS_BASE_ADDR + 0xA0;
pub const UART2_UBIR: u32 = UART2_IPS_BASE_ADDR + 0xA4;
pub const UART2_UBMR: u32 = UART2_IPS_BASE_ADDR + 0xA8;
pub const UART2_ONEMS: u32 = UART2_IPS_BASE_ADDR + 0xB0;
pub const UART2_UTS: u32 = UART2_IPS_BASE_ADDR + 0xB4;

pub const UART_UTS_TXEMPTY: u32 = 0x40;
pub const UART_UCR1_UARTEN: u32 = 0x1;
pub const UART_UCR2_SRST: u32 = 0x1;
pub const UART_UFCR_RXTL_SHF: u32 = 0;
pub const UART_UFCR_TXTL_SHF: u32 = 10;
pub const UART_UFCR_RFDIV_2: u32 = 0x200;
pub const UART_UCR2_PREN: u32 = 0x100;
pub const UART_UCR2_WS: u32 = 0x20;
pub const UART_UCR2_IRTS: u32 = 0x4000;
pub const UART_UCR2_STPB: u32 = 0x40;
pub const UART_UCR2_RXEN: u32 = 0x2;
pub const UART_UCR2_TXEN: u32 = 0x4;
pub const UART_USR2_ADET: u32 = 0x8000;
pub const UART_USR2_IDLE: u32 = 0x1000;
pub const UART_USR2_IRINT: u32 = 0x100;
pub const UART_USR2_WAKE: u32 = 0x80;
pub const UART_USR2_RTSF: u32 = 0x10;
pub const UART_USR2_BRCD: u32 = 0x4;
pub const UART_USR2_ORE: u32 = 0x2;
pub const UART_USR2_RDR: u32 = 0x1;
pub const UART_USR1_PARITYERR: u32 = 0x8000;
pub const UART_USR1_RTSD: u32 = 0x1000;
pub const UART_USR1_ESCF: u32 = 0x800;
pub const UART_USR1_FRAMERR: u32 = 0x400;
pub const UART_USR1_AIRINT: u32 = 0x20;
pub const UART_USR1_AWAKE: u32 = 0x10;
pub const UART_UTS_TXFULL: u32 = 0x10;

/// The fields of an IOMUX pad setting.
#[derive(Copy, Clone, PartialEq, Eq, Structural, Debug)]
pub struct PadSetting {
    /// Offset of the mux control register (bits 0..12)
    pub mux_ctrl_ofs: u32,
    /// Mux mode (bits 36..41)
    pub mux_mode: u32,
    /// Offset of the select-input register (bits 24..36)
    pub sel_input_ofs: u32,
    /// Select input (bits 59..63)
    pub sel_input: u32,
    /// Offset of the pad control register (bits 12..24)
    pub pad_ctrl_ofs: u32,
    /// Pad control (bits 41..59)
    pub pad_ctrl: u32,
}

/// A 32-bit register write: `value` to address `addr`.
#[derive(Copy, Clone, PartialEq, Eq, Structural, Debug)]
pub struct RegisterWrite {
    pub addr: u32,
    pub value: u32,
}

/// The fields of pad setting `pad`.
pub open spec fn pad_fields(pad: u64) -> PadSetting {
    PadSetting {
        mux_ctrl_ofs: (pad & 0xFFF) as u32,
        mux_mode: ((pad >> 36) & 0x1F) as u32,
        sel_input_ofs: ((pad >> 24) & 0xFFF) as u32,
        sel_input: ((pad >> 59) & 0xF) as u32,
        pad_ctrl_ofs: ((pad >> 12) & 0xFFF) as u32,
        pad_ctrl: ((pad >> 41) & 0x3FFFF) as u32,
    }
}

/// The pad setting that holds the fields of `p`.
pub open spec fn pad_encoding(p: PadSetting) -> u64 {
    (p.mux_ctrl_ofs as u64) | ((p.pad_ctrl_ofs as u64) << 12) | ((p.sel_input_ofs as u64) << 24)
        | ((p.mux_mode as u64) << 36) | ((p.pad_ctrl as u64) << 41) | ((p.sel_input as u64) << 59)
}

/// Every field fits in its bits.
pub open spec fn pad_fields_in_range(p: PadSetting) -> bool {
    &&& p.mux_ctrl_ofs <= 0xFFF
    &&& p.mux_mode <= 0x1F
    &&& p.sel_input_ofs <= 0xFFF
    &&& p.sel_input <= 0xF
    &&& p.pad_ctrl_ofs <= 0xFFF
    &&& p.pad_ctrl <= 0x3FFFF
}

/// The IOMUX writes that configure pad `pad`: the mux mode, then the select
/// input, then the pad control, each only where its register offset is not
/// zero, and the pad control only where it does not carry `IOMUX_NO_PAD_CTRL`.
pub open spec fn pad_writes(pad: u64) -> Seq<RegisterWrite> {
    let f = pad_fields(pad);
    let mux = if f.mux_ctrl_ofs != 0 {
        seq![RegisterWrite { addr: (IOMUX_BASE_ADDR + f.mux_ctrl_ofs) as u32, value: f.mux_mode }]
    } else {
        Seq::empty()
    };
    let sel = if f.sel_input_ofs != 0 {
        seq![RegisterWrite { addr: (IOMUX_BASE_ADDR + f.sel_input_ofs) as u32, value: f.sel_input }]
    } else {
        Seq::empty()
    };
    let ctl = if (f.pad_ctrl & IOMUX_NO_PAD_CTRL) == 0 && f.pad_ctrl_ofs != 0 {
        seq![RegisterWrite { addr: (IOMUX_BASE_ADDR + f.pad_ctrl_ofs) as u32, value: f.pad_ctrl }]
    } else {
        Seq::empty()
    };
    mux + sel + ctl
}

/// Splits a pad setting into its fields.
pub fn decode_pad(pad: u64) -> (p: PadSetting)
    ensures
        p == pad_fields(pad),
        pad_fields_in_range(p),
{
    let mux_ctrl_ofs: u32 = (pad & 0xFFF) as u32;
    let mux_mode: u32 = ((pad & (0x1F << 36)) >> 36) as u32;
    let sel_input_ofs: u32 = ((pad & (0xFFF << 24)) >> 24) as u32;
    let sel_input: u32 = ((pad & (0xF << 59)) >> 59) as u32;
    let pad_ctrl_ofs: u32 = ((pad & (0xFFF << 12)) >> 12) as u32;
    let pad_ctrl: u32 = ((pad & (0x3FFFF << 41)) >> 41) as u32;
    assert(((pad & (0x1Fu64 << 36u64)) >> 36u64) == ((pad >> 36u64) & 0x1Fu64)
        && ((pad & (0xFFFu64 << 24u64)) >> 24u64) == ((pad >> 24u64) & 0xFFFu64)
        && ((pad & (0xFu64 << 59u64)) >> 59u64) == ((pad >> 59u64) & 0xFu64)
        && ((pad & (0xFFFu64 << 12u64)) >> 12u64) == ((pad >> 12u64) & 0xFFFu64)
        && ((pad & (0x3FFFFu64 << 41u64)) >> 41u64) == ((pad >> 41u64) & 0x3FFFFu64)
        && (pad & 0xFFFu64) <= 0xFFFu64
        && ((pad >> 36u64) & 0x1Fu64) <= 0x1Fu64
        && ((pad >> 24u64) & 0xFFFu64) <= 0xFFFu64
        && ((pad >> 59u64) & 0xFu64) <= 0xFu64
        && ((pad >> 12u64) & 0xFFFu64) <= 0xFFFu64
        && ((pad >> 41u64) & 0x3FFFFu64) <= 0x3FFFFu64) by (bit_vector);
    PadSetting { mux_ctrl_ofs, mux_mode, sel_input_ofs, sel_input, pad_ctrl_ofs, pad_ctrl }
}

/// The IOMUX register writes that set up pad `pad`, in the order they are made.
pub fn gpio_pad_writes(pad: u64) -> (writes: Vec<RegisterWrite>)
    ensures
        writes@ == pad_writes(pad),
{
    let f = decode_pad(pad);
    let mut writes: Vec<RegisterWrite> = Vec::new();
    if f.mux_ctrl_ofs != 0 {
        writes.push(RegisterWrite { addr: IOMUX_BASE_ADDR + f.mux_ctrl_ofs, value: f.mux_mode });
    }
    if f.sel_input_ofs != 0 {
        writes.push(RegisterWrite { addr: IOMUX_BASE_ADDR + f.sel_input_ofs, value: f.sel_input });
    }
    if (f.pad_ctrl & IOMUX_NO_PAD_CTRL) == 0 && f.pad_ctrl_ofs != 0 {
        writes.push(RegisterWrite { addr: IOMUX_BASE_ADDR + f.pad_ctrl_ofs, value: f.pad_ctrl });
    }
    assert(writes@ =~= pad_writes(pad));
    writes
}

/// Splitting a pad setting gives back the fields it was built from.
pub proof fn lemma_pad_round_trip(p: PadSetting)
    requires
        pad_fields_in_range(p),
    ensures
        pad_fields(pad_encoding(p)) == p,
{
    let a = p.mux_ctrl_ofs as u64;
    let b = p.pad_ctrl_ofs as u64;
    let c = p.sel_input_ofs as u64;
    let d = p.mux_mode as u64;
    let e = p.pad_ctrl as u64;
    let g = p.sel_input as u64;
    let x = a | (b << 12u64) | (c << 24u64) | (d << 36u64) | (e << 41u64) | (g << 59u64);
    assert(x & 0xFFFu64 == a && (x >> 12u64) & 0xFFFu64 == b && (x >> 24u64) & 0xFFFu64 == c
        && (x >> 36u64) & 0x1Fu64 == d && (x >> 41u64) & 0x3FFFFu64 == e && (x >> 59u64) & 0xFu64
        == g) by (bit_vector)
        requires
            a <= 0xFFFu64,
            b <= 0xFFFu64,
            c <= 0xFFFu64,
            d <= 0x1Fu64,
            e <= 0x3FFFFu64,
            g <= 0xFu64,
            x == a | (b << 12u64) | (c << 24u64) | (d << 36u64) | (e << 41u64) | (g << 59u64),
    ;
}

/// FIFO control: receive trigger level 1, reference clock divided by 2,
/// transmit trigger level 2.
pub fn uart_fifo_control() -> (v: u32)
    ensures
        v == (1u32 << UART_UFCR_RXTL_SHF) | UART_UFCR_RFDIV_2 | (2u32 << UART_UFCR_TXTL_SHF),
        v == 0xA01,
{
    let v: u32 = (1u32 << UART_UFCR_RXTL_SHF) | UART_UFCR_RFDIV_2 | (2u32 << UART_UFCR_TXTL_SHF);
    assert(((1u32 << 0u32) | 0x200u32 | (2u32 << 10u32)) == 0xA01u32) by (bit_vector);
    v
}

/// The one-millisecond timer count for the UART's reference clock, which is
/// the module clock divided by 2.
pub fn uart_one_ms(clock_freq: u32) -> (v: u32)
    ensures
        v == clock_freq / 2 / 1000,
{
    (clock_freq / 2) / 1000
}

/// Numerator, minus one, of the baud-rate ratio for `baud`.
pub fn uart_brm_numerator(baud: u32) -> (v: u32)
    requires
        baud >= 100,
    ensures
        v == baud / 100 - 1,
{
    (baud / 100) - 1
}

/// Denominator, minus one, of the baud-rate ratio for the module clock
/// `clock_freq`.
pub fn uart_brm_denominator(clock_freq: u32) -> (v: u32)
    requires
        clock_freq >= 3200,
    ensures
        v == clock_freq / 2 / 1600 - 1,
{
    ((clock_freq / 2) / 1600) - 1
}

/// Control register 2 for 8 data bits, no parity and one stop bit, with RTS
/// ignored; the other bits stay as they were.
pub fn uart_ucr2_8n1(ucr2: u32) -> (v: u32)
    ensures
        v == (((ucr2 & !UART_UCR2_PREN) | UART_UCR2_WS) & !UART_UCR2_STPB) | UART_UCR2_IRTS,
{
    let v1 = ucr2 & !UART_UCR2_PREN;
    let v2 = v1 | UART_UCR2_WS;
    let v3 = v2 & !UART_UCR2_STPB;
    v3 | UART_UCR2_IRTS
}

/// Control register 2 with the receiver and transmitter enabled and the
/// software reset released.
pub fn uart_ucr2_enable(ucr2: u32) -> (v: u32)
    ensures
        v == ucr2 | UART_UCR2_SRST | UART_UCR2_RXEN | UART_UCR2_TXEN,
{
    ucr2 | UART_UCR2_SRST | UART_UCR2_RXEN | UART_UCR2_TXEN
}

/// Status register 2 with every write-one-to-clear flag written.
pub fn uart_usr2_clear(usr2: u32) -> (v: u32)
    ensures
        v == usr2 | UART_USR2_ADET | UART_USR2_IDLE | UART_USR2_IRINT | UART_USR2_WAKE
            | UART_USR2_RTSF | UART_USR2_BRCD | UART_USR2_ORE | UART_USR2_RDR,
{
    usr2 | UART_USR2_ADET | UART_USR2_IDLE | UART_USR2_IRINT | UART_USR2_WAKE | UART_USR2_RTSF
        | UART_USR2_BRCD | UART_USR2_ORE | UART_USR2_RDR
}

/// Status register 1 with every write-one-to-clear flag written.
pub fn uart_usr1_clear(usr1: u32) -> (v: u32)
    ensures
        v == usr1 | UART_USR1_PARITYERR | UART_USR1_RTSD | UART_USR1_ESCF | UART_USR1_FRAMERR
            | UART_USR1_AIRINT | UART_USR1_AWAKE,
{
    usr1 | UART_USR1_PARITYERR | UART_USR1_RTSD | UART_USR1_ESCF | UART_USR1_FRAMERR
        | UART_USR1_AIRINT | UART_USR1_AWAKE
}

/// The 8N1 setting leaves the word-size bit and the ignore-RTS bit set, the
/// parity-enable and two-stop-bit bits clear, and every other bit as it was.
pub proof fn lemma_ucr2_8n1(ucr2: u32)
    ensures
        ({
            let v = (((ucr2 & !UART_UCR2_PREN) | UART_UCR2_WS) & !UART_UCR2_STPB) | UART_UCR2_IRTS;
            &&& v & UART_UCR2_WS != 0
            &&& v & UART_UCR2_IRTS != 0
            &&& v & UART_UCR2_PREN == 0
            &&& v & UART_UCR2_STPB == 0
            &&& v & !(UART_UCR2_WS | UART_UCR2_IRTS | UART_UCR2_PREN | UART_UCR2_STPB) == ucr2
                & !(UART_UCR2_WS | UART_UCR2_IRTS | UART_UCR2_PREN | UART_UCR2_STPB)
        }),
{
    let v = (((ucr2 & !0x100u32) | 0x20u32) & !0x40u32) | 0x4000u32;
    assert(v & 0x20u32 != 0 && v & 0x4000u32 != 0 && v & 0x100u32 == 0 && v & 0x40u32 == 0 && v
        & !(0x20u32 | 0x4000u32 | 0x100u32 | 0x40u32) == ucr2 & !(0x20u32 | 0x4000u32 | 0x100u32
        | 0x40u32)) by (bit_vector)
        requires
            v == (((ucr2 & !0x100u32) | 0x20u32) & !0x40u32) | 0x4000u32,
    ;
}

/// The words that sending `c` puts in the transmit register: a line feed is
/// preceded by a carriage return.
pub open spec fn serial_words(c: char) -> Seq<u32> {
    if c == '\n' {
        seq![0x0Du32, 0x0Au32]
    } else {
        seq![c as u32]
    }
}

/// The words that sending the characters `s` puts in the transmit register.
pub open spec fn serial_stream(s: Seq<char>) -> Seq<u32>
    decreases s.len(),
{
    if s.len() == 0 {
        Seq::empty()
    } else {
        serial_stream(s.drop_last()) + serial_words(s.last())
    }
}

/// The words to put, one after the other, in the UART transmit register to
/// send `data`.
pub fn putchar(data: char) -> (words: Vec<u32>)
    ensures
        words@ == serial_words(data),
{
    let mut words: Vec<u32> = Vec::new();
    if data == '\n' {
        words.push(0x0D);
    }
    words.push(data as u32);
    assert(words@ =~= serial_words(data));
    words
}

/// The words to put, one after the other, in the UART transmit register to
/// send `string`.
pub fn putstr(string: &str) -> (words: Vec<u32>)
    ensures
        words@ == serial_stream(string@),
{
    let mut words: Vec<u32> = Vec::new();
    for c in it: string.chars()
        invariant
            it.seq() == string@,
            words@ == serial_stream(string@.take(it.index() as int)),
    {
        proof {
            assert(string@.take(it.index() as int + 1).drop_last() =~= string@.take(it.index() as int));
        }
        let mut w = putchar(c);
        words.append(&mut w);
    }
    proof {
        assert(string@.take(string@.len() as int) =~= string@);
    }
    words
}

/// Sending two strings one after the other sends what sending their
/// concatenation does.
pub proof fn lemma_serial_stream_concat(a: Seq<char>, b: Seq<char>)
    ensures
        serial_stream(a + b) == serial_stream(a) + serial_stream(b),
    decreases b.len(),
{
    if b.len() == 0 {
        assert(a + b =~= a);
        assert(serial_stream(a) + serial_stream(b) =~= serial_stream(a));
    } else {
        lemma_serial_stream_concat(a, b.drop_last());
        assert((a + b).drop_last() =~= a + b.drop_last());
        assert(serial_stream(a) + serial_stream(b) =~= serial_stream(a) + serial_stream(
            b.drop_last(),
        ) + serial_words(b.last()));
    }
}

/// Every line feed that goes out is right after a carriage return.
pub proof fn lemma_line_feed_after_carriage_return(s: Seq<char>)
    ensures
        forall|i: int|
            0 <= i < serial_stream(s).len() && #[trigger] serial_stream(s)[i] == 0x0Au32 ==> i > 0
                && serial_stream(s)[i - 1] == 0x0Du32,
    decreases s.len(),
{
    if s.len() > 0 {
        let p = s.drop_last();
        lemma_line_feed_after_carriage_return(p);
        let out = serial_stream(s);
        let head = serial_stream(p);
        let w = serial_words(s.last());
        assert(out =~= head + w);
        assert forall|i: int| 0 <= i < out.len() && #[trigger] out[i] == 0x0Au32 implies i > 0
            && out[i - 1] == 0x0Du32 by {
            if i < head.len() {
                assert(out[i] == head[i]);
                assert(head[i] == 0x0Au32);
                assert(out[i - 1] == head[i - 1]);
            } else {
                assert(out[i] == w[i - head.len()]);
                if s.last() != '\n' {
                    let c = s.last();
                    assert(w[0] == c as u32);
                    vstd::utf8::char_u32_cast(c, c as u32);
                    vstd::utf8::char_u32_cast('\n', 10);
                }
            }
        }
    }
}

/// The three IOMUX writes of a pad are decided each on its own: the mux
/// mode is written where the mux control offset (bits 0..12) is not zero,
/// the select input where its offset (bits 24..36) is not zero, and the pad
/// control where its offset (bits 12..24) is not zero and the pad control
/// (bits 41..59) lacks `IOMUX_NO_PAD_CTRL`; they come in that order, each to
/// the IOMUX base plus its offset.
pub proof fn lemma_pad_writes_independent(pad: u64)
    ensures
        ({
            let mux_ofs = (pad & 0xFFF) as u32;
            let sel_ofs = ((pad >> 24) & 0xFFF) as u32;
            let ctl_ofs = ((pad >> 12) & 0xFFF) as u32;
            let ctl = ((pad >> 41) & 0x3FFFF) as u32;
            let has_mux: int = if mux_ofs != 0 { 1 } else { 0 };
            let has_sel: int = if sel_ofs != 0 { 1 } else { 0 };
            let has_ctl = ctl & 0x20000 == 0 && ctl_ofs != 0;
            let w = pad_writes(pad);
            &&& w.len() == has_mux + has_sel + (if has_ctl { 1int } else { 0 })
            &&& mux_ofs != 0 ==> w[0] == RegisterWrite {
                addr: (0x420E_0000 + mux_ofs) as u32,
                value: ((pad >> 36) & 0x1F) as u32,
            }
            &&& sel_ofs != 0 ==> w[has_mux] == RegisterWrite {
                addr: (0x420E_0000 + sel_ofs) as u32,
                value: ((pad >> 59) & 0xF) as u32,
            }
            &&& has_ctl ==> w[has_mux + has_sel] == RegisterWrite {
                addr: (0x420E_0000 + ctl_ofs) as u32,
                value: ctl,
            }
        }),
{
}

} // verus!

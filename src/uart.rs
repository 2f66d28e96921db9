//! PL011-compatible UART of the Phytium Pi: register layout, baud-rate
//! divisors and the register writes that set it up, send and receive.

use vstd::prelude::*;
use crate::mmio::{RegWrite, bit_set};

verus! {

/// Line rate the UART is programmed for.
pub const BAUD_RATE: u32 = 115200;
/// Reference clock of the UART.
pub const CLOCK_HZ: u32 = 100_000_000;
/// Physical base address of UART2.
pub const UART_BASE: usize = 0x2800_E000;

/// Data register.
pub const UARTDR: usize = 0x000;
/// Receive status register.
pub const UARTRSR: usize = 0x004;
/// Flag register.
pub const UARTFR: usize = 0x018;
/// Low-power counter register.
pub const UARTILPR: usize = 0x020;
/// Integer baud-rate divisor.
pub const UARTIBRD: usize = 0x024;
/// Fractional baud-rate divisor.
pub const UARTFBRD: usize = 0x028;
/// Line control register.
pub const UARTLCR_H: usize = 0x02C;
/// Control register.
pub const UARTCR: usize = 0x030;
/// Interrupt mask set/clear register.
pub const UARTIMSC: usize = 0x038;
/// Interrupt clear register.
pub const UARTICR: usize = 0x044;
/// Size of the register block in bytes.
pub const UART_REGS_SIZE: usize = 0x04C;

/// Flag register: receive FIFO empty.
pub const FR_RXFE: u32 = 4;
/// Flag register: transmit FIFO full.
pub const FR_TXFF: u32 = 5;

/// Line control: 8 data bits, 1 stop bit, no parity, FIFOs enabled.
pub const LCR_H_8N1_FIFO: u32 = 0x70;
/// Control register with UART, transmit, receive, DTR and RTS enabled
/// (bits 0, 8, 9, 10 and 11).
pub const CR_ENABLED: u32 = 0xF01;
/// Mask of the data field of the data register.
pub const DR_DATA_MASK: u32 = 0xFF;

/// The baud-rate divisor `16 * baud`.
pub open spec fn baud_divisor(baud: int) -> int {
    16 * baud
}

/// Integer part of `clock / (16 * baud)`.
pub open spec fn baud_integer(clock: int, baud: int) -> int {
    clock / baud_divisor(baud)
}

/// Fractional part of `clock / (16 * baud)` in 64ths, rounded to nearest.
pub open spec fn baud_fraction(clock: int, baud: int) -> int {
    ((clock % baud_divisor(baud)) * 64 + baud_divisor(baud) / 2) / baud_divisor(baud)
}

/// The integer and fractional baud-rate divisors for `clock_hz` and `baud`.
pub fn baud_divisors(clock_hz: u32, baud: u32) -> (r: (u32, u32))
    requires
        0 < baud,
        16 * baud <= u32::MAX,
    ensures
        r.0 == baud_integer(clock_hz as int, baud as int),
        r.1 == baud_fraction(clock_hz as int, baud as int),
        r.1 <= 64,
{
    let d: u64 = 16 * baud as u64;
    let integer: u64 = clock_hz as u64 / d;
    let rem: u64 = clock_hz as u64 % d;
    assert(rem < d);
    assert(rem * 64 + d / 2 < 65 * d) by (nonlinear_arith)
        requires
            rem < d,
    ;
    let num: u64 = rem * 64 + d / 2;
    let fraction: u64 = num / d;
    assert(fraction <= 64) by (nonlinear_arith)
        requires
            fraction as int == num as int / d as int,
            num < 65 * d,
            d > 0,
    ;
    assert(integer <= clock_hz) by (nonlinear_arith)
        requires
            integer as int == clock_hz as int / d as int,
            d > 0,
    ;
    (integer as u32, fraction as u32)
}

/// The writes that set the UART up, in order: disable, program the
/// divisors, 8N1 with FIFOs, mask all interrupts, enable.
pub open spec fn init_writes() -> Seq<RegWrite> {
    seq![
        RegWrite { offset: UARTCR, value: 0 },
        RegWrite { offset: UARTIBRD, value: baud_integer(CLOCK_HZ as int, BAUD_RATE as int) as u32 },
        RegWrite { offset: UARTFBRD, value: baud_fraction(CLOCK_HZ as int, BAUD_RATE as int) as u32 },
        RegWrite { offset: UARTLCR_H, value: LCR_H_8N1_FIFO },
        RegWrite { offset: UARTIMSC, value: 0 },
        RegWrite { offset: UARTCR, value: CR_ENABLED },
    ]
}

/// A UART, owning the register block at `base`.
pub struct Uart {
    base: usize,
}

impl Uart {
    /// The UART whose registers start at `base`, which must not be null.
    pub fn new(base: usize) -> (r: Uart)
        requires
            base != 0,
        ensures
            r.base_spec() == base,
    {
        Uart { base }
    }

    pub closed spec fn base_spec(&self) -> usize {
        self.base
    }

    /// The address of the register block.
    pub fn base(&self) -> (r: usize)
        ensures
            r == self.base_spec(),
    {
        self.base
    }

    /// The register writes that initialize the UART.
    pub fn init(&self) -> (w: Vec<RegWrite>)
        ensures
            w@ == init_writes(),
    {
        let (integer, fraction) = baud_divisors(CLOCK_HZ, BAUD_RATE);
        let mut w: Vec<RegWrite> = Vec::new();
        w.push(RegWrite { offset: UARTCR, value: 0 });
        w.push(RegWrite { offset: UARTIBRD, value: integer });
        w.push(RegWrite { offset: UARTFBRD, value: fraction });
        w.push(RegWrite { offset: UARTLCR_H, value: LCR_H_8N1_FIFO });
        w.push(RegWrite { offset: UARTIMSC, value: 0 });
        w.push(RegWrite { offset: UARTCR, value: CR_ENABLED });
        assert(w@ =~= init_writes());
        w
    }

    /// Sending `data` given the flag register `fr`: the data-register
    /// write, or nothing when the transmit FIFO is full.
    pub fn send(&self, fr: u32, data: u8) -> (w: Option<RegWrite>)
        ensures
            w is None <==> (fr >> FR_TXFF) & 1 == 1,
            w is Some ==> w == Some(RegWrite { offset: UARTDR, value: data as u32 }),
    {
        if bit_set(fr, FR_TXFF) {
            None
        } else {
            Some(RegWrite { offset: UARTDR, value: data as u32 })
        }
    }

    /// The byte received, given the data register `dr` as read.
    pub fn recv(&self, dr: u32) -> (r: u8)
        ensures
            r as u32 == dr & DR_DATA_MASK,
    {
        let v: u32 = dr & DR_DATA_MASK;
        assert(dr & 0xFFu32 <= 0xFFu32) by (bit_vector);
        v as u8
    }

    /// Whether the receive FIFO is empty, given the flag register `fr`.
    pub fn rx_empty(&self, fr: u32) -> (r: bool)
        ensures
            r == ((fr >> FR_RXFE) & 1 == 1),
    {
        bit_set(fr, FR_RXFE)
    }
}

/// `b` is the data field of some value that `read_reg` may return for the
/// data register.
pub open spec fn read_back<F: Fn(usize) -> u32>(read_reg: F, b: u8) -> bool {
    exists|dr: u32| call_ensures(read_reg, (UARTDR,), dr) && b as u32 == dr & DR_DATA_MASK
}

/// How many bytes the loop-back exercise sends and receives.
pub const EXAMPLE_BYTES: usize = 10;

/// Whether flag register value `fr` shows the transmit FIFO full.
pub open spec fn tx_full(fr: u32) -> bool {
    (fr >> FR_TXFF) & 1 == 1
}

/// The data-register writes of the loop-back rounds, given the flag
/// register value read at the start of each round: round `i` writes byte
/// `i`, unless its flags showed the transmit FIFO full.
pub open spec fn round_writes(flags: Seq<u32>) -> Seq<RegWrite>
    decreases flags.len(),
{
    if flags.len() == 0 {
        Seq::empty()
    } else {
        let k = flags.len() - 1;
        round_writes(flags.take(k)) + if tx_full(flags[k]) {
            Seq::empty()
        } else {
            seq![RegWrite { offset: UARTDR, value: k as u32 }]
        }
    }
}

/// What the loop-back exercise did.
pub struct UartExchange {
    /// The byte received in each round.
    pub received: Vec<u8>,
    /// The flag register value read at the start of each round.
    pub flags: Vec<u32>,
    /// Every register write handed to the hardware, in order.
    pub written: Vec<RegWrite>,
}

/// Initializes the UART, then for each byte `i` in `0 .. EXAMPLE_BYTES`
/// reads the flags, sends `i` if the transmit FIFO has room, and reads one
/// byte back. Registers are accessed through `read_reg` (by byte offset)
/// and `write_reg`.
pub fn uart_example(uart: &Uart, read_reg: impl Fn(usize) -> u32, write_reg: impl Fn(RegWrite)) -> (x: UartExchange)
    requires
        forall|off: usize| call_requires(read_reg, (off,)),
        forall|w: RegWrite| call_requires(write_reg, (w,)),
    ensures
        x.received@.len() == EXAMPLE_BYTES,
        x.flags@.len() == EXAMPLE_BYTES,
        forall|i: int| 0 <= i < EXAMPLE_BYTES ==> read_back(read_reg, #[trigger] x.received@[i]),
        forall|i: int| 0 <= i < EXAMPLE_BYTES ==> call_ensures(read_reg, (UARTFR,), #[trigger] x.flags@[i]),
        x.written@ == init_writes() + round_writes(x.flags@),
        forall|k: int| 0 <= k < x.written@.len() ==> call_ensures(write_reg, (#[trigger] x.written@[k],), ()),
{
    let init = uart.init();
    let mut written: Vec<RegWrite> = Vec::new();
    let mut k: usize = 0;
    while k < init.len()
        invariant
            k <= init@.len(),
            init@ == init_writes(),
            written@ == init@.take(k as int),
            forall|w: RegWrite| call_requires(write_reg, (w,)),
            forall|j: int| 0 <= j < written@.len() ==> call_ensures(write_reg, (#[trigger] written@[j],), ()),
        decreases init.len() - k,
    {
        write_reg(init[k]);
        written.push(init[k]);
        k = k + 1;
        assert(written@ =~= init@.take(k as int));
    }
    assert(written@ =~= init_writes() + round_writes(Seq::<u32>::empty()));
    let mut received: Vec<u8> = Vec::new();
    let mut flags: Vec<u32> = Vec::new();
    let mut i: usize = 0;
    while i < EXAMPLE_BYTES
        invariant
            i <= EXAMPLE_BYTES,
            received@.len() == i,
            flags@.len() == i,
            forall|off: usize| call_requires(read_reg, (off,)),
            forall|w: RegWrite| call_requires(write_reg, (w,)),
            forall|j: int| 0 <= j < i ==> read_back(read_reg, #[trigger] received@[j]),
            forall|j: int| 0 <= j < i ==> call_ensures(read_reg, (UARTFR,), #[trigger] flags@[j]),
            written@ == init_writes() + round_writes(flags@),
            forall|j: int| 0 <= j < written@.len() ==> call_ensures(write_reg, (#[trigger] written@[j],), ()),
        decreases EXAMPLE_BYTES - i,
    {
        let ghost old_flags = flags@;
        let ghost old_written = written@;
        let fr = read_reg(UARTFR);
        flags.push(fr);
        assert(flags@.take(i as int) =~= old_flags);
        match uart.send(fr, i as u8) {
            Some(w) => {
                write_reg(w);
                written.push(w);
                assert(written@ =~= init_writes() + round_writes(flags@));
            },
            None => {
                assert(written@ =~= init_writes() + round_writes(flags@));
            },
        }
        let dr = read_reg(UARTDR);
        let b = uart.recv(dr);
        assert(read_back(read_reg, b));
        received.push(b);
        i = i + 1;
    }
    UartExchange { received, flags, written }
}

} // verus!

//! Generic watchdog of the Phytium Pi: register layout, the register
//! writes of its operations, and the bring-up sequence that routes its
//! interrupt through the controller.

use vstd::prelude::*;
use crate::mmio::RegWrite;
use crate::gic::{IrqController, IrqState, register_post, GicCommand};
use crate::intid::{watchdog_irq_num, WATCHDOG_SPI, SPI_BASE};

verus! {

/// Physical base address of the watchdog.
pub const WDT_BASE: usize = 0x2804_0000;

/// Refresh register: any write feeds the watchdog.
pub const WDT_WRR: usize = 0x0000;
/// Interface identification register.
pub const WDT_W_IIDR: usize = 0x0fcc;
/// Control and status register.
pub const WDT_WCS: usize = 0x1000;
/// Offset (timeout) register.
pub const WDT_WOR: usize = 0x1008;
/// Compare value, low 32 bits.
pub const WDT_WCVL: usize = 0x1010;
/// Compare value, high 32 bits.
pub const WDT_WCVH: usize = 0x1014;
/// Size of the register block in bytes.
pub const WDT_REGS_SIZE: usize = 0x1018;

/// Control value that enables the watchdog.
pub const WCS_ENABLE: u32 = 0x1;
/// Control value that disables the watchdog.
pub const WCS_DISABLE: u32 = 0x0;
/// Value written to the refresh register to feed the watchdog.
pub const WRR_FEED: u32 = 0x1;

/// How many times the bring-up sequence feeds the watchdog.
pub const EXAMPLE_FEEDS: usize = 10;

/// The write that enables the watchdog.
pub open spec fn enable_write() -> RegWrite {
    RegWrite { offset: WDT_WCS, value: WCS_ENABLE }
}

/// The write that feeds the watchdog.
pub open spec fn feed_write() -> RegWrite {
    RegWrite { offset: WDT_WRR, value: WRR_FEED }
}

/// The writes of the bring-up sequence: initialize, enable, then feed
/// `EXAMPLE_FEEDS` times.
pub open spec fn example_writes() -> Seq<RegWrite> {
    seq![enable_write(), enable_write()] + Seq::new(EXAMPLE_FEEDS as nat, |i: int| feed_write())
}

/// A watchdog, owning the register block at `base`.
pub struct WatchDog {
    base: usize,
}

impl WatchDog {
    /// The watchdog whose registers start at `base`, which must not be null.
    pub fn new(base: usize) -> (r: WatchDog)
        requires
            base != 0,
        ensures
            r.base_spec() == base,
    {
        WatchDog { base }
    }

    pub closed spec fn base_spec(&self) -> usize {
        self.base
    }

    /// The address of the register block.
    pub fn base(&self) -> (r: usize)
        ensures
            r == self.base_spec(),
    {
        self.base
    }

    /// The write that initializes (and starts) the watchdog.
    pub fn init_watchdog(&mut self) -> (w: RegWrite)
        ensures
            w == enable_write(),
            *final(self) == *old(self),
    {
        RegWrite { offset: WDT_WCS, value: WCS_ENABLE }
    }

    /// The write that sets the timeout to `timeout` cycles.
    pub fn set_watchdog_timeout(&self, timeout: u32) -> (w: RegWrite)
        ensures
            w == (RegWrite { offset: WDT_WOR, value: timeout }),
    {
        RegWrite { offset: WDT_WOR, value: timeout }
    }

    /// The write that enables the watchdog.
    pub fn enable_watchdog(&self) -> (w: RegWrite)
        ensures
            w == enable_write(),
    {
        RegWrite { offset: WDT_WCS, value: WCS_ENABLE }
    }

    /// The write that disables the watchdog.
    pub fn disable_watchdog(&self) -> (w: RegWrite)
        ensures
            w == (RegWrite { offset: WDT_WCS, value: WCS_DISABLE }),
    {
        RegWrite { offset: WDT_WCS, value: WCS_DISABLE }
    }

    /// The write that feeds the watchdog.
    pub fn feed_watchdog(&self) -> (w: RegWrite)
        ensures
            w == feed_write(),
    {
        RegWrite { offset: WDT_WRR, value: WRR_FEED }
    }
}

/// The watchdog's interrupt handler: the interrupt needs no device work.
pub fn handle_wdt_irq() {
}

/// Brings the watchdog up: enables its interrupt line, registers `handler`
/// for it, then initializes, enables and feeds the watchdog. Returns the
/// watchdog register writes in order.
pub fn watchdog_example<H: Fn()>(ctl: &mut IrqController<H>, wdt: &mut WatchDog, handler: H) -> (w: Vec<RegWrite>)
    requires
        old(ctl)@.wf(),
        old(ctl)@.distributor,
        call_requires(handler, ()),
    ensures
        final(ctl)@.wf(),
        ({
            let irq = (WATCHDOG_SPI + SPI_BASE) as usize;
            let enabled = IrqState {
                enabled: old(ctl)@.enabled.update(irq as int, true),
                commands: old(ctl)@.commands.push(GicCommand::SetEnable { irq, enabled: true }),
                ..old(ctl)@
            };
            register_post(enabled, final(ctl)@, irq, handler, old(ctl)@.can_register(irq))
        }),
        final(ctl)@.enabled[(WATCHDOG_SPI + SPI_BASE) as int],
        w@ == example_writes(),
        *final(wdt) == *old(wdt),
{
    let irq = watchdog_irq_num();
    ctl.set_enable(irq, true);
    let ok = ctl.register_handler(irq, handler);
    let mut w: Vec<RegWrite> = Vec::new();
    w.push(wdt.init_watchdog());
    w.push(wdt.enable_watchdog());
    let mut i: usize = 0;
    while i < EXAMPLE_FEEDS
        invariant
            i <= EXAMPLE_FEEDS,
            w@ == seq![enable_write(), enable_write()] + Seq::new(i as nat, |j: int| feed_write()),
        decreases EXAMPLE_FEEDS - i,
    {
        w.push(wdt.feed_watchdog());
        i = i + 1;
        assert(w@ =~= seq![enable_write(), enable_write()] + Seq::new(i as nat, |j: int| feed_write()));
    }
    w
}

} // verus!

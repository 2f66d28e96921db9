//! PL061 GPIO controller: register layout, and the set-up that routes the
//! pin-3 interrupt through the interrupt controller.

use vstd::prelude::*;
use crate::mmio::RegWrite;
use crate::gic::{IrqController, IrqState, register_post, GicCommand};
use crate::intid::MAX_IRQ_COUNT;

verus! {

/// Data registers (256 words, address-masked).
pub const GPIODATA: usize = 0x000;
/// Direction register.
pub const GPIODIR: usize = 0x400;
/// Interrupt sense register.
pub const GPIOIS: usize = 0x404;
/// Interrupt both-edges register.
pub const GPIOIBE: usize = 0x408;
/// Interrupt event register.
pub const GPIOIEV: usize = 0x40c;
/// Interrupt enable register.
pub const GPIOIE: usize = 0x410;
/// Raw interrupt status register.
pub const GPIORIS: usize = 0x414;
/// Masked interrupt status register.
pub const GPIOMIS: usize = 0x418;
/// Interrupt clear register.
pub const GPIOIC: usize = 0x41c;
/// Alternate function select register.
pub const GPIOAFSEL: usize = 0x420;
/// Size of the register block in bytes.
pub const GPIO_REGS_SIZE: usize = 0x424;

/// The pin whose interrupt is used.
pub const IRQ_PIN: u32 = 3;
/// Interrupt enable value with only `IRQ_PIN` enabled.
pub const IE_PIN3: u32 = 0x8;

/// Enables the GPIO interrupt line `gpio_irq`, registers `handler` for it,
/// and returns the write that enables the interrupt of pin 3.
pub fn init<H: Fn()>(ctl: &mut IrqController<H>, gpio_irq: usize, handler: H) -> (w: RegWrite)
    requires
        old(ctl)@.wf(),
        old(ctl)@.distributor,
        gpio_irq < MAX_IRQ_COUNT,
        call_requires(handler, ()),
    ensures
        final(ctl)@.wf(),
        ({
            let enabled = IrqState {
                enabled: old(ctl)@.enabled.update(gpio_irq as int, true),
                commands: old(ctl)@.commands.push(GicCommand::SetEnable { irq: gpio_irq, enabled: true }),
                ..old(ctl)@
            };
            register_post(enabled, final(ctl)@, gpio_irq, handler, old(ctl)@.can_register(gpio_irq))
        }),
        final(ctl)@.enabled[gpio_irq as int],
        w == (RegWrite { offset: GPIOIE, value: IE_PIN3 }),
{
    ctl.set_enable(gpio_irq, true);
    let _ok = ctl.register_handler(gpio_irq, handler);
    let ie: u32 = 1u32 << IRQ_PIN;
    assert(1u32 << 3u32 == 8u32) by (bit_vector);
    RegWrite { offset: GPIOIE, value: ie }
}

/// The first write of the interrupt handler: disable the pin interrupts.
pub fn mask_pin_irq() -> (w: RegWrite)
    ensures
        w == (RegWrite { offset: GPIOIE, value: 0 }),
{
    RegWrite { offset: GPIOIE, value: 0 }
}

/// The write that clears the interrupts named by `ie`, the interrupt
/// enable register as read back after masking.
pub fn clear_irqs(ie: u32) -> (w: RegWrite)
    ensures
        w == (RegWrite { offset: GPIOIC, value: ie }),
{
    RegWrite { offset: GPIOIC, value: ie }
}

} // verus!

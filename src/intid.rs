//! Interrupt identifiers and their architected classes.

use vstd::prelude::*;

verus! {

/// The number of interrupt ids the controller can name.
pub const MAX_IRQ_COUNT: usize = 1024;

/// The raw value handed to dispatch when the caller has not acknowledged the
/// interrupt yet. It coincides with software-generated interrupt 0, which is
/// therefore always read as "acknowledge now".
pub const IRQ_ACK_PENDING: usize = 0;

/// The id the CPU interface yields when no interrupt is pending.
pub const SPURIOUS_IRQ: usize = 1023;

/// The first id of the shared-peripheral class.
pub const SPI_BASE: usize = 32;

/// The first id of the private-peripheral class.
pub const PPI_BASE: usize = 16;

/// One past the last id of the shared-peripheral class.
pub const SPI_END: usize = 1020;

/// The PPI line of the architected generic timer (non-secure EL1 physical).
pub const TIMER_PPI: u32 = 14;

/// The SPI line of the watchdog.
pub const WATCHDOG_SPI: usize = 164;

/// Architected classes of interrupt ids.
#[derive(Clone, Copy, Debug, PartialEq, Eq, Structural)]
pub enum IrqClass {
    /// Software-generated: ids 0 to 15.
    Sgi,
    /// Private peripheral: ids 16 to 31, one set per core.
    Ppi,
    /// Shared peripheral: ids 32 to 1019.
    Spi,
}

/// The controller id of line `line` of class `class`, if the class has such a line.
pub open spec fn translated(line: int, class: IrqClass) -> Option<int> {
    match class {
        IrqClass::Sgi => if line < 16 { Some(line) } else { None },
        IrqClass::Ppi => if line < 16 { Some(line + PPI_BASE) } else { None },
        IrqClass::Spi => if line < SPI_END - SPI_BASE { Some(line + SPI_BASE) } else { None },
    }
}

/// Translates a line number of an interrupt class to the controller's id.
pub fn translate_irq(line: usize, class: IrqClass) -> (r: Option<usize>)
    ensures
        r matches Some(id) ==> translated(line as int, class) == Some(id as int),
        r is None ==> translated(line as int, class) is None,
{
    match class {
        IrqClass::Sgi => if line < 16 { Some(line) } else { None },
        IrqClass::Ppi => if line < 16 { Some(line + PPI_BASE) } else { None },
        IrqClass::Spi => if line < SPI_END - SPI_BASE { Some(line + SPI_BASE) } else { None },
    }
}

/// Relies on `arm_gic_driver::IntId::ppi` (with `to_u32`): PPI `ppi` is id
/// `16 + ppi`; the constructor asserts `ppi < 16`.
#[verifier::external_body]
fn ppi_intid(ppi: u32) -> (r: u32)
    requires
        ppi < 16,
    ensures
        r == ppi + 16,
{
    arm_gic_driver::IntId::ppi(ppi).to_u32()
}

/// Relies on `arm_gic_driver::IntId::spi` (with `to_u32`): SPI `spi` is id
/// `32 + spi`; the constructor asserts `spi < 1020`.
#[verifier::external_body]
fn spi_intid(spi: u32) -> (r: u32)
    requires
        spi < 1020,
    ensures
        r == spi + 32,
{
    arm_gic_driver::IntId::spi(spi).to_u32()
}

/// The controller id of the generic timer interrupt.
pub fn timer_irq_num() -> (r: usize)
    ensures
        r == TIMER_PPI + PPI_BASE,
{
    ppi_intid(TIMER_PPI) as usize
}

/// The controller id of the UART interrupt, given its shared-peripheral line.
pub fn uart_irq_num(uart_line: u32) -> (r: usize)
    requires
        uart_line < SPI_END - SPI_BASE,
    ensures
        r == uart_line + SPI_BASE,
{
    spi_intid(uart_line) as usize
}

/// The controller id of the watchdog interrupt.
pub fn watchdog_irq_num() -> (r: usize)
    ensures
        translated(WATCHDOG_SPI as int, IrqClass::Spi) == Some(r as int),
        r == WATCHDOG_SPI + SPI_BASE,
{
    match translate_irq(WATCHDOG_SPI, IrqClass::Spi) {
        Some(id) => id,
        None => 0,
    }
}

} // verus!

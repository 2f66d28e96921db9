use std::cell::{Cell, RefCell};
use axhal_irq::gic::{GicCommand, IrqController};
use axhal_irq::gpio;
use axhal_irq::intid::{timer_irq_num, translate_irq, uart_irq_num, watchdog_irq_num, IrqClass};
use axhal_irq::mmio::{bit_set, RegWrite};
use axhal_irq::uart::{self, baud_divisors, Uart};
use axhal_irq::watchdog::{self, handle_wdt_irq, watchdog_example, WatchDog};

#[test]
fn irq_numbers() {
    assert_eq!(timer_irq_num(), 30);
    assert_eq!(uart_irq_num(84), 116);
    assert_eq!(uart_irq_num(987), 1019);
    assert_eq!(watchdog_irq_num(), 196);
}

#[test]
fn translate_each_class() {
    assert_eq!(translate_irq(5, IrqClass::Sgi), Some(5));
    assert_eq!(translate_irq(16, IrqClass::Sgi), None);
    assert_eq!(translate_irq(14, IrqClass::Ppi), Some(30));
    assert_eq!(translate_irq(16, IrqClass::Ppi), None);
    assert_eq!(translate_irq(164, IrqClass::Spi), Some(196));
    assert_eq!(translate_irq(987, IrqClass::Spi), Some(1019));
    assert_eq!(translate_irq(988, IrqClass::Spi), None);
}

#[test]
fn baud_divisors_for_board_clock() {
    assert_eq!(baud_divisors(100_000_000, 115_200), (54, 16));
    assert_eq!(baud_divisors(24_000_000, 115_200), (13, 1));
    assert_eq!(baud_divisors(1_843_200, 115_200), (1, 0));
}

#[test]
fn uart_init_sequence() {
    let u = Uart::new(0x1000);
    assert_eq!(u.base(), 0x1000);
    assert_eq!(
        u.init(),
        vec![
            RegWrite { offset: uart::UARTCR, value: 0 },
            RegWrite { offset: uart::UARTIBRD, value: 54 },
            RegWrite { offset: uart::UARTFBRD, value: 16 },
            RegWrite { offset: uart::UARTLCR_H, value: 0x70 },
            RegWrite { offset: uart::UARTIMSC, value: 0 },
            RegWrite { offset: uart::UARTCR, value: 0xF01 },
        ]
    );
}

#[test]
fn uart_send_and_recv() {
    let u = Uart::new(0x1000);
    assert_eq!(u.send(0, 0x41), Some(RegWrite { offset: uart::UARTDR, value: 0x41 }));
    assert_eq!(u.send(1 << 5, 0x41), None);
    assert_eq!(u.send(1 << 4, 7), Some(RegWrite { offset: 0, value: 7 }));
    assert_eq!(u.recv(0xF41), 0x41);
    assert_eq!(u.recv(0xFF), 0xFF);
    assert!(u.rx_empty(1 << 4));
    assert!(!u.rx_empty(1 << 5));
    assert!(bit_set(0x80000000, 31));
    assert!(!bit_set(0x7FFFFFFF, 31));
}

#[test]
fn watchdog_register_writes() {
    let mut w = WatchDog::new(0x2000);
    assert_eq!(w.base(), 0x2000);
    assert_eq!(w.init_watchdog(), RegWrite { offset: 0x1000, value: 1 });
    assert_eq!(w.set_watchdog_timeout(0xABCD), RegWrite { offset: 0x1008, value: 0xABCD });
    assert_eq!(w.enable_watchdog(), RegWrite { offset: 0x1000, value: 1 });
    assert_eq!(w.disable_watchdog(), RegWrite { offset: 0x1000, value: 0 });
    assert_eq!(w.feed_watchdog(), RegWrite { offset: 0x0, value: 1 });
    handle_wdt_irq();
}

#[test]
fn watchdog_bring_up() {
    let mut ctl: IrqController<fn()> = IrqController::new(1);
    ctl.init_primary(0);
    ctl.take_commands();
    let mut w = WatchDog::new(watchdog::WDT_BASE);
    let writes = watchdog_example(&mut ctl, &mut w, handle_wdt_irq as fn());
    assert_eq!(writes.len(), 12);
    assert_eq!(writes[0], RegWrite { offset: watchdog::WDT_WCS, value: 1 });
    assert_eq!(writes[1], RegWrite { offset: watchdog::WDT_WCS, value: 1 });
    for wr in &writes[2..] {
        assert_eq!(*wr, RegWrite { offset: watchdog::WDT_WRR, value: 1 });
    }
    assert!(ctl.is_enabled(196));
    assert!(ctl.has_handler(196));
    assert_eq!(
        ctl.take_commands(),
        vec![
            GicCommand::SetEnable { irq: 196, enabled: true },
            GicCommand::SetEnable { irq: 196, enabled: true },
        ]
    );
}

fn noop() {}

#[test]
fn gpio_init_and_handler_writes() {
    let mut ctl: IrqController<fn()> = IrqController::new(1);
    ctl.init_primary(0);
    ctl.take_commands();
    let w = gpio::init(&mut ctl, 42, noop as fn());
    assert_eq!(w, RegWrite { offset: gpio::GPIOIE, value: 8 });
    assert!(ctl.is_enabled(42));
    assert!(ctl.has_handler(42));
    assert_eq!(gpio::mask_pin_irq(), RegWrite { offset: 0x410, value: 0 });
    assert_eq!(gpio::clear_irqs(0x8), RegWrite { offset: 0x41c, value: 0x8 });
}

#[test]
fn uart_loopback_exercise() {
    let u = Uart::new(0x1000);
    let writes: RefCell<Vec<RegWrite>> = RefCell::new(Vec::new());
    let last = Cell::new(0u32);
    let x = uart::uart_example(
        &u,
        |off| if off == uart::UARTDR { last.get() | 0x100 } else { 0 },
        |w| {
            if w.offset == uart::UARTDR {
                last.set(w.value);
            }
            writes.borrow_mut().push(w);
        },
    );
    assert_eq!(x.received, (0u8..10).collect::<Vec<u8>>());
    assert_eq!(x.flags, vec![0; 10]);
    let writes = writes.into_inner();
    assert_eq!(writes, x.written);
    assert_eq!(writes.len(), 16);
    assert_eq!(writes[..6].to_vec(), u.init());
    for i in 0..10usize {
        assert_eq!(writes[6 + i], RegWrite { offset: uart::UARTDR, value: i as u32 });
    }
}

#[test]
fn uart_exercise_with_full_fifo_sends_nothing() {
    let u = Uart::new(0x1000);
    let writes: RefCell<Vec<RegWrite>> = RefCell::new(Vec::new());
    let x = uart::uart_example(
        &u,
        |off| if off == uart::UARTFR { 1 << 5 } else { 0x1FF },
        |w| writes.borrow_mut().push(w),
    );
    assert_eq!(x.received, vec![0xFF; 10]);
    assert_eq!(x.written, u.init());
    assert_eq!(writes.into_inner().len(), 6);
}

#[test]
fn uart_exercise_skips_rounds_with_full_fifo() {
    let u = Uart::new(0x1000);
    let round = Cell::new(0u32);
    let x = uart::uart_example(
        &u,
        |off| {
            if off == uart::UARTFR {
                let r = round.get();
                round.set(r + 1);
                if r % 2 == 1 { 1 << 5 } else { 0 }
            } else {
                0
            }
        },
        |_w| {},
    );
    assert_eq!(x.written.len(), 11);
    let sent: Vec<u32> = x.written[6..].iter().map(|w| w.value).collect();
    assert_eq!(sent, vec![0, 2, 4, 6, 8]);
}

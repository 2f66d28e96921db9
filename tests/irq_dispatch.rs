use axhal_irq::gic::{Dispatch, GicCommand, IrqController};
use axhal_irq::intid::{IRQ_ACK_PENDING, MAX_IRQ_COUNT, SPURIOUS_IRQ};
use std::cell::{Cell, RefCell};
use std::rc::Rc;

type Handler = Box<dyn Fn()>;

fn counter() -> (Rc<Cell<usize>>, Handler) {
    let c = Rc::new(Cell::new(0usize));
    let c2 = c.clone();
    (c, Box::new(move || c2.set(c2.get() + 1)))
}

fn booted(cpus: usize) -> IrqController<Handler> {
    let mut ctl: IrqController<Handler> = IrqController::new(cpus);
    ctl.init_primary(0);
    ctl.take_commands();
    ctl
}

#[test]
fn init_primary_issues_distributor_then_interface() {
    let mut ctl: IrqController<Handler> = IrqController::new(4);
    assert!(!ctl.distributor_ready());
    assert!(!ctl.cpu_ready(0));
    ctl.init_primary(0);
    assert!(ctl.distributor_ready());
    assert!(ctl.cpu_ready(0));
    assert!(!ctl.cpu_ready(1));
    assert_eq!(
        ctl.take_commands(),
        vec![
            GicCommand::InitDistributor,
            GicCommand::InitCpuInterface { cpu: 0 },
            GicCommand::MaskCpuIrqs { cpu: 0 },
        ]
    );
    assert!(ctl.take_commands().is_empty());
}

#[test]
fn register_ack_and_dispatch_line_33() {
    let mut ctl = booted(1);
    let (count, h) = counter();
    assert!(ctl.register_handler(33, h));
    assert!(ctl.is_enabled(33));
    assert_eq!(ctl.take_commands(), vec![GicCommand::SetEnable { irq: 33, enabled: true }]);
    assert_eq!(ctl.fetch_irq(0, || 33), 33);
    let acks = Cell::new(0usize);
    let d = ctl.dispatch_irq(0, IRQ_ACK_PENDING, || {
        acks.set(acks.get() + 1);
        33
    });
    assert_eq!(acks.get(), 1);
    assert_eq!(d, Dispatch { acked: true, irq: 33, handled: true });
    assert_eq!(count.get(), 1);
    assert_eq!(ctl.take_commands(), vec![GicCommand::Eoi { cpu: 0, irq: 33 }]);
}

#[test]
fn second_registration_keeps_first_handler() {
    let mut ctl = booted(1);
    let (c1, h1) = counter();
    let (c2, h2) = counter();
    assert!(ctl.register_handler(40, h1));
    ctl.take_commands();
    assert!(!ctl.register_handler(40, h2));
    assert!(ctl.take_commands().is_empty());
    let d = ctl.dispatch_irq(0, 40, || panic!("no ack expected"));
    assert_eq!(d, Dispatch { acked: false, irq: 40, handled: true });
    assert_eq!(c1.get(), 1);
    assert_eq!(c2.get(), 0);
    assert_eq!(ctl.take_commands(), vec![GicCommand::Eoi { cpu: 0, irq: 40 }]);
}

#[test]
fn init_secondary_leaves_enable_bits() {
    let mut ctl = booted(2);
    let (_c, h) = counter();
    assert!(ctl.register_handler(33, h));
    ctl.set_enable(50, true);
    ctl.take_commands();
    ctl.init_secondary(1);
    assert!(ctl.cpu_ready(1));
    assert!(ctl.is_enabled(33));
    assert!(ctl.is_enabled(50));
    assert!(!ctl.is_enabled(51));
    assert!(ctl.has_handler(33));
    assert_eq!(ctl.take_commands(), vec![GicCommand::InitCpuInterface { cpu: 1 }]);
}

#[test]
fn dispatch_registered_invokes_once_and_eois_once() {
    let mut ctl = booted(1);
    let (count, h) = counter();
    assert!(ctl.register_handler(100, h));
    ctl.take_commands();
    let d = ctl.dispatch_irq(0, 100, || 7);
    assert_eq!(d, Dispatch { acked: false, irq: 100, handled: true });
    assert_eq!(count.get(), 1);
    assert_eq!(ctl.take_commands(), vec![GicCommand::Eoi { cpu: 0, irq: 100 }]);
}

#[test]
fn dispatch_unregistered_still_eois() {
    let mut ctl = booted(1);
    let d = ctl.dispatch_irq(0, 77, || 7);
    assert_eq!(d, Dispatch { acked: false, irq: 77, handled: false });
    assert_eq!(ctl.take_commands(), vec![GicCommand::Eoi { cpu: 0, irq: 77 }]);
}

#[test]
fn dispatch_spurious_does_nothing() {
    let mut ctl = booted(1);
    let (count, h) = counter();
    assert!(ctl.register_handler(33, h));
    ctl.take_commands();
    let d = ctl.dispatch_irq(0, SPURIOUS_IRQ, || 33);
    assert_eq!(d, Dispatch { acked: false, irq: SPURIOUS_IRQ, handled: false });
    assert_eq!(count.get(), 0);
    assert!(ctl.take_commands().is_empty());
}

#[test]
fn ack_yielding_spurious_does_nothing() {
    let mut ctl = booted(1);
    let d = ctl.dispatch_irq(0, IRQ_ACK_PENDING, || SPURIOUS_IRQ);
    assert_eq!(d, Dispatch { acked: true, irq: SPURIOUS_IRQ, handled: false });
    assert!(ctl.take_commands().is_empty());
}

#[test]
fn register_out_of_range_fails() {
    let mut ctl = booted(1);
    let (_c, h) = counter();
    assert!(!ctl.register_handler(MAX_IRQ_COUNT, h));
    assert!(ctl.take_commands().is_empty());
    let (_c2, h2) = counter();
    assert!(ctl.register_handler(MAX_IRQ_COUNT - 1, h2));
    assert!(ctl.is_enabled(MAX_IRQ_COUNT - 1));
    assert!(!ctl.is_enabled(MAX_IRQ_COUNT));
}

#[test]
fn set_enable_toggles_line() {
    let mut ctl = booted(1);
    ctl.set_enable(64, true);
    assert!(ctl.is_enabled(64));
    ctl.set_enable(64, false);
    assert!(!ctl.is_enabled(64));
    assert_eq!(
        ctl.take_commands(),
        vec![
            GicCommand::SetEnable { irq: 64, enabled: true },
            GicCommand::SetEnable { irq: 64, enabled: false },
        ]
    );
}

#[test]
fn dispatch_common_reports_handler() {
    let mut ctl = booted(1);
    let (count, h) = counter();
    assert!(ctl.register_handler(5, h));
    assert!(ctl.dispatch_irq_common(5));
    assert!(!ctl.dispatch_irq_common(6));
    assert!(!ctl.dispatch_irq_common(5000));
    assert_eq!(count.get(), 1);
}

#[test]
fn only_first_of_many_registrations_succeeds() {
    let mut ctl = booted(1);
    let (c1, h1) = counter();
    assert!(ctl.register_handler(200, h1));
    let mut others = Vec::new();
    for _ in 0..5 {
        let (c, h) = counter();
        assert!(!ctl.register_handler(200, h));
        others.push(c);
    }
    ctl.take_commands();
    let d = ctl.dispatch_irq(0, 200, || 0);
    assert!(d.handled);
    assert_eq!(c1.get(), 1);
    assert!(others.iter().all(|c| c.get() == 0));
    assert_eq!(ctl.take_commands(), vec![GicCommand::Eoi { cpu: 0, irq: 200 }]);
}

#[test]
fn ack_runs_before_handler() {
    let mut ctl = booted(1);
    let order: Rc<RefCell<Vec<&'static str>>> = Rc::new(RefCell::new(Vec::new()));
    let o = order.clone();
    assert!(ctl.register_handler(33, Box::new(move || o.borrow_mut().push("handler"))));
    ctl.take_commands();
    let o2 = order.clone();
    let d = ctl.dispatch_irq(0, IRQ_ACK_PENDING, move || {
        o2.borrow_mut().push("ack");
        33
    });
    assert!(d.handled);
    assert_eq!(*order.borrow(), vec!["ack", "handler"]);
    assert_eq!(ctl.take_commands(), vec![GicCommand::Eoi { cpu: 0, irq: 33 }]);
}

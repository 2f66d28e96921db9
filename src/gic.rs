//! The interrupt controller (distributor plus one CPU interface per core)
//! together with the handler table that routes an interrupt id to its
//! callback.
//!
//! The controller state is an explicitly owned value. Every operation that
//! the hardware has to carry out is appended, in order, to a list of
//! `GicCommand`s that the platform glue drains with `take_commands` and
//! performs; acknowledging is the one hardware read, and it is supplied by
//! the caller as a closure.

use vstd::prelude::*;
use crate::intid::{MAX_IRQ_COUNT, IRQ_ACK_PENDING, SPURIOUS_IRQ};

verus! {

/// An operation on the controller hardware.
#[derive(Clone, Copy, Debug, PartialEq, Eq, Structural)]
pub enum GicCommand {
    /// Set up the distributor (shared by all cores).
    InitDistributor,
    /// Derive core `cpu`'s interface from the distributor and set it up
    /// (priority mask, group enable).
    InitCpuInterface { cpu: usize },
    /// Set or clear the distributor enable bit of line `irq`.
    SetEnable { irq: usize, enabled: bool },
    /// Signal end of interrupt `irq` on core `cpu`'s interface.
    Eoi { cpu: usize, irq: usize },
    /// Mask interrupt delivery on core `cpu` itself.
    MaskCpuIrqs { cpu: usize },
}

/// An event of the interrupt protocol, as recorded in a controller's history.
#[derive(Clone, Copy, Debug, PartialEq, Eq, Structural)]
pub enum IrqEvent {
    /// Core `cpu` acknowledged an interrupt, which turned out to be `irq`.
    Ack { cpu: usize, irq: usize },
    /// The handler registered for `irq` was called.
    Handler { irq: usize },
    /// End of interrupt `irq` was issued on core `cpu`.
    Eoi { cpu: usize, irq: usize },
}

/// What one dispatch did.
#[derive(Clone, Copy, Debug, PartialEq, Eq, Structural)]
pub struct Dispatch {
    /// Whether the interrupt was acknowledged by this dispatch.
    pub acked: bool,
    /// The resolved interrupt id.
    pub irq: usize,
    /// Whether a registered handler was invoked.
    pub handled: bool,
}

/// The abstract state of an `IrqController`.
pub ghost struct IrqState<H> {
    /// The handler registered for each id, if any.
    pub handlers: Seq<Option<H>>,
    /// The distributor enable bit of each id.
    pub enabled: Seq<bool>,
    /// Whether the distributor has been set up.
    pub distributor: bool,
    /// For each core, whether its CPU interface has been set up.
    pub interfaces: Seq<bool>,
    /// The hardware operations issued and not yet taken.
    pub commands: Seq<GicCommand>,
    /// Every protocol event so far, oldest first.
    pub history: Seq<IrqEvent>,
}

/// Interrupt controller state and handler table, for handlers of type `H`.
pub struct IrqController<H> {
    handlers: Vec<Option<H>>,
    enabled: Vec<bool>,
    distributor: bool,
    interfaces: Vec<bool>,
    commands: Vec<GicCommand>,
    history: Ghost<Seq<IrqEvent>>,
}

impl<H> View for IrqController<H> {
    type V = IrqState<H>;

    closed spec fn view(&self) -> IrqState<H> {
        IrqState {
            handlers: self.handlers@,
            enabled: self.enabled@,
            distributor: self.distributor,
            interfaces: self.interfaces@,
            commands: self.commands@,
            history: self.history@,
        }
    }
}

impl<H: Fn()> IrqState<H> {
    /// Sizes agree with the id range, and every registered handler may be called.
    pub open spec fn wf(self) -> bool {
        &&& self.handlers.len() == MAX_IRQ_COUNT
        &&& self.enabled.len() == MAX_IRQ_COUNT
        &&& forall|i: int|
            0 <= i < MAX_IRQ_COUNT && (#[trigger] self.handlers[i]) is Some ==> call_requires(
                self.handlers[i]->0,
                (),
            )
    }

    /// Whether core `cpu` has a CPU interface to acknowledge and complete with.
    pub open spec fn cpu_ready(self, cpu: usize) -> bool {
        &&& self.distributor
        &&& cpu < self.interfaces.len()
        &&& self.interfaces[cpu as int]
    }

    /// Whether a handler is registered for `irq`.
    pub open spec fn has_handler(self, irq: usize) -> bool {
        irq < MAX_IRQ_COUNT && self.handlers[irq as int] is Some
    }

    /// Whether registering a handler for `irq` would succeed on this state.
    pub open spec fn can_register(self, irq: usize) -> bool {
        irq < MAX_IRQ_COUNT && self.handlers[irq as int] is None
    }

    /// The state after registering `h` for `irq` succeeded.
    pub open spec fn registered(self, irq: usize, h: H) -> IrqState<H> {
        IrqState {
            handlers: self.handlers.update(irq as int, Some(h)),
            enabled: self.enabled.update(irq as int, true),
            commands: self.commands.push(GicCommand::SetEnable { irq, enabled: true }),
            ..self
        }
    }

    /// The state after one delivery of resolved id `irq` on core `cpu`:
    /// one EOI command unless `irq` is the spurious id, and the delivery's
    /// events appended to the history.
    pub open spec fn dispatched(self, cpu: usize, irq: usize, acked: bool, handled: bool) -> IrqState<H> {
        IrqState {
            commands: if irq == SPURIOUS_IRQ {
                self.commands
            } else {
                self.commands.push(GicCommand::Eoi { cpu, irq })
            },
            history: self.history + delivery_events(cpu, irq, acked, handled),
            ..self
        }
    }
}

/// The events of one delivery of `irq` on core `cpu`, in order: the
/// acknowledge (if this delivery made it), the handler call (if one ran),
/// and the EOI (unless `irq` is the spurious id).
pub open spec fn delivery_events(cpu: usize, irq: usize, acked: bool, handled: bool) -> Seq<IrqEvent> {
    (if acked { seq![IrqEvent::Ack { cpu, irq }] } else { Seq::empty() }) + (if handled {
        seq![IrqEvent::Handler { irq }]
    } else {
        Seq::empty()
    }) + (if irq == SPURIOUS_IRQ { Seq::empty() } else { seq![IrqEvent::Eoi { cpu, irq }] })
}

/// `register_handler(irq, h)` on `pre` returned `ok` and left `post`.
pub open spec fn register_post<H: Fn()>(pre: IrqState<H>, post: IrqState<H>, irq: usize, h: H, ok: bool) -> bool {
    &&& ok == pre.can_register(irq)
    &&& ok ==> post == pre.registered(irq, h)
    &&& !ok ==> post == pre
}

/// `dispatch_irq(cpu, irq_num, ..)` on `pre` returned `d` and left `post`.
pub open spec fn dispatch_post<H: Fn()>(pre: IrqState<H>, post: IrqState<H>, cpu: usize, irq_num: usize, d: Dispatch) -> bool {
    &&& d.acked == (irq_num == IRQ_ACK_PENDING)
    &&& !d.acked ==> d.irq == irq_num
    &&& d.handled == (d.irq != SPURIOUS_IRQ && pre.has_handler(d.irq))
    &&& d.handled ==> call_ensures(pre.handlers[d.irq as int]->0, (), ())
    &&& post == pre.dispatched(cpu, d.irq, d.acked, d.handled)
}

/// The slot of `irq` holds the first handler after every registration of
/// a sequence that started on an empty slot.
proof fn lemma_slot_keeps_first<H: Fn()>(states: Seq<IrqState<H>>, hs: Seq<H>, oks: Seq<bool>, irq: usize, k: int)
    requires
        irq < MAX_IRQ_COUNT,
        oks.len() == hs.len(),
        states.len() == hs.len() + 1,
        states[0].wf(),
        states[0].handlers[irq as int] is None,
        forall|j: int| 0 <= j < hs.len() ==> register_post(#[trigger] states[j], states[j + 1], irq, hs[j], oks[j]),
        1 <= k <= hs.len(),
    ensures
        states[k].handlers[irq as int] == Some(hs[0]),
        states[k].handlers.len() == MAX_IRQ_COUNT,
    decreases k,
{
    assert(register_post(states[k - 1], states[k], irq, hs[k - 1], oks[k - 1]));
    if k > 1 {
        lemma_slot_keeps_first(states, hs, oks, irq, k - 1);
    }
}

/// For an id in range with no handler, of any number `n >= 1` of
/// successive registrations for it only the first returns `true`; every
/// later one returns `false`, and the first handler stays registered (and
/// so stays the one dispatched).
pub proof fn lemma_register_first_of_many<H: Fn()>(states: Seq<IrqState<H>>, hs: Seq<H>, oks: Seq<bool>, irq: usize)
    requires
        irq < MAX_IRQ_COUNT,
        hs.len() >= 1,
        oks.len() == hs.len(),
        states.len() == hs.len() + 1,
        states[0].wf(),
        states[0].handlers[irq as int] is None,
        forall|j: int| 0 <= j < hs.len() ==> register_post(#[trigger] states[j], states[j + 1], irq, hs[j], oks[j]),
    ensures
        oks[0],
        forall|k: int| 1 <= k < oks.len() ==> !(#[trigger] oks[k]),
        states[hs.len() as int].handlers[irq as int] == Some(hs[0]),
        states[hs.len() as int].has_handler(irq),
{
    assert(register_post(states[0], states[1], irq, hs[0], oks[0]));
    assert forall|k: int| 1 <= k < oks.len() implies !(#[trigger] oks[k]) by {
        lemma_slot_keeps_first(states, hs, oks, irq, k);
        assert(register_post(states[k], states[k + 1], irq, hs[k], oks[k]));
    }
    lemma_slot_keeps_first(states, hs, oks, irq, hs.len() as int);
}

/// Registering for an id that already has a handler fails and changes nothing.
pub proof fn lemma_register_occupied<H: Fn()>(s0: IrqState<H>, s1: IrqState<H>, irq: usize, h: H, ok: bool)
    requires
        s0.wf(),
        s0.has_handler(irq),
        register_post(s0, s1, irq, h, ok),
    ensures
        !ok,
        s1 == s0,
{
}

/// A successful registration leaves the line enabled at the distributor.
pub proof fn lemma_register_enables<H: Fn()>(s0: IrqState<H>, s1: IrqState<H>, irq: usize, h: H, ok: bool)
    requires
        s0.wf(),
        register_post(s0, s1, irq, h, ok),
        ok,
    ensures
        s1.enabled[irq as int],
        s1.handlers[irq as int] == Some(h),
{
}

/// Dispatching the ack-now value acknowledges once, and is then the same as
/// dispatching the acknowledged id directly: same handler decision, same
/// resulting state (and so the same EOI).
pub proof fn lemma_ack_then_dispatch<H: Fn()>(
    s0: IrqState<H>,
    s1: IrqState<H>,
    t1: IrqState<H>,
    cpu: usize,
    d: Dispatch,
    e: Dispatch,
)
    requires
        dispatch_post(s0, s1, cpu, IRQ_ACK_PENDING, d),
        d.irq != IRQ_ACK_PENDING,
        dispatch_post(s0, t1, cpu, d.irq, e),
    ensures
        d.acked,
        !e.acked,
        d.irq == e.irq,
        d.handled == e.handled,
        t1.history == s0.history + delivery_events(cpu, d.irq, false, e.handled),
        s1.history == s0.history.push(IrqEvent::Ack { cpu, irq: d.irq }) + delivery_events(cpu, d.irq, false, e.handled),
        s1 == (IrqState { history: s1.history, ..t1 }),
{
    assert(delivery_events(cpu, d.irq, true, d.handled) =~= seq![IrqEvent::Ack { cpu, irq: d.irq }]
        + delivery_events(cpu, d.irq, false, e.handled));
    assert(s1.history =~= s0.history.push(IrqEvent::Ack { cpu, irq: d.irq }) + delivery_events(cpu, d.irq, false, e.handled));
}

/// Dispatching a resolved id that has a handler calls it exactly once and
/// then issues exactly one EOI for that id, and nothing else.
pub proof fn lemma_dispatch_registered<H: Fn()>(s0: IrqState<H>, s1: IrqState<H>, cpu: usize, irq: usize, d: Dispatch)
    requires
        dispatch_post(s0, s1, cpu, irq, d),
        irq != IRQ_ACK_PENDING,
        irq != SPURIOUS_IRQ,
        s0.has_handler(irq),
    ensures
        !d.acked,
        d.handled,
        call_ensures(s0.handlers[irq as int]->0, (), ()),
        s1 == (IrqState {
            commands: s0.commands.push(GicCommand::Eoi { cpu, irq }),
            history: s0.history + seq![IrqEvent::Handler { irq }, IrqEvent::Eoi { cpu, irq }],
            ..s0
        }),
{
    assert(delivery_events(cpu, irq, false, true) =~= seq![IrqEvent::Handler { irq }, IrqEvent::Eoi { cpu, irq }]);
}

/// Dispatching a resolved id without a handler invokes nothing, yet still
/// issues exactly one EOI for that id.
pub proof fn lemma_dispatch_unregistered<H: Fn()>(s0: IrqState<H>, s1: IrqState<H>, cpu: usize, irq: usize, d: Dispatch)
    requires
        dispatch_post(s0, s1, cpu, irq, d),
        irq != IRQ_ACK_PENDING,
        irq != SPURIOUS_IRQ,
        !s0.has_handler(irq),
    ensures
        !d.acked,
        !d.handled,
        s1 == (IrqState {
            commands: s0.commands.push(GicCommand::Eoi { cpu, irq }),
            history: s0.history.push(IrqEvent::Eoi { cpu, irq }),
            ..s0
        }),
{
    assert(delivery_events(cpu, irq, false, false) =~= seq![IrqEvent::Eoi { cpu, irq }]);
    assert(s1.history =~= s0.history.push(IrqEvent::Eoi { cpu, irq }));
}

/// Dispatching the spurious id invokes no handler and issues no EOI.
pub proof fn lemma_dispatch_spurious<H: Fn()>(s0: IrqState<H>, s1: IrqState<H>, cpu: usize, d: Dispatch)
    requires
        dispatch_post(s0, s1, cpu, SPURIOUS_IRQ, d),
    ensures
        !d.acked,
        !d.handled,
        s1 == s0,
{
    assert(delivery_events(cpu, SPURIOUS_IRQ, false, false) =~= Seq::<IrqEvent>::empty());
    assert(s1.history =~= s0.history);
}

impl<H: Fn()> IrqController<H> {
    /// A controller for `cpu_count` cores, before any initialization: no
    /// handler, every line disabled, no interface.
    pub fn new(cpu_count: usize) -> (r: Self)
        ensures
            r@.wf(),
            r@.handlers == Seq::new(MAX_IRQ_COUNT as nat, |i: int| None::<H>),
            r@.enabled == Seq::new(MAX_IRQ_COUNT as nat, |i: int| false),
            !r@.distributor,
            r@.interfaces == Seq::new(cpu_count as nat, |i: int| false),
            r@.commands == Seq::<GicCommand>::empty(),
            r@.history == Seq::<IrqEvent>::empty(),
    {
        let mut handlers: Vec<Option<H>> = Vec::new();
        let mut enabled: Vec<bool> = Vec::new();
        let mut i: usize = 0;
        while i < MAX_IRQ_COUNT
            invariant
                i <= MAX_IRQ_COUNT,
                handlers@.len() == i,
                enabled@.len() == i,
                forall|j: int| 0 <= j < i ==> handlers@[j] is None,
                forall|j: int| 0 <= j < i ==> !enabled@[j],
            decreases MAX_IRQ_COUNT - i,
        {
            handlers.push(None);
            enabled.push(false);
            i = i + 1;
        }
        let mut interfaces: Vec<bool> = Vec::new();
        let mut c: usize = 0;
        while c < cpu_count
            invariant
                c <= cpu_count,
                interfaces@.len() == c,
                forall|j: int| 0 <= j < c ==> !interfaces@[j],
            decreases cpu_count - c,
        {
            interfaces.push(false);
            c = c + 1;
        }
        let r = IrqController { handlers, enabled, distributor: false, interfaces, commands: Vec::new(), history: Ghost(Seq::empty()) };
        assert(r@.handlers =~= Seq::new(MAX_IRQ_COUNT as nat, |i: int| None::<H>));
        assert(r@.enabled =~= Seq::new(MAX_IRQ_COUNT as nat, |i: int| false));
        assert(r@.interfaces =~= Seq::new(cpu_count as nat, |i: int| false));
        r
    }

    /// Sets up the distributor and the boot core's interface, then masks
    /// interrupt delivery on the boot core. Runs once, on the boot core,
    /// before any other controller operation.
    pub fn init_primary(&mut self, cpu: usize)
        requires
            !old(self)@.distributor,
            cpu < old(self)@.interfaces.len(),
        ensures
            final(self)@ == (IrqState {
                distributor: true,
                interfaces: old(self)@.interfaces.update(cpu as int, true),
                commands: old(self)@.commands.push(GicCommand::InitDistributor).push(
                    GicCommand::InitCpuInterface { cpu },
                ).push(GicCommand::MaskCpuIrqs { cpu }),
                ..old(self)@
            }),
    {
        self.distributor = true;
        self.commands.push(GicCommand::InitDistributor);
        self.interfaces.set(cpu, true);
        self.commands.push(GicCommand::InitCpuInterface { cpu });
        self.commands.push(GicCommand::MaskCpuIrqs { cpu });
    }

    /// Sets up the interface of a secondary core from the shared
    /// distributor. The distributor's configuration is left as it is.
    pub fn init_secondary(&mut self, cpu: usize)
        requires
            old(self)@.distributor,
            cpu < old(self)@.interfaces.len(),
            !old(self)@.interfaces[cpu as int],
        ensures
            final(self)@ == (IrqState {
                interfaces: old(self)@.interfaces.update(cpu as int, true),
                commands: old(self)@.commands.push(GicCommand::InitCpuInterface { cpu }),
                ..old(self)@
            }),
    {
        self.interfaces.set(cpu, true);
        self.commands.push(GicCommand::InitCpuInterface { cpu });
    }

    /// Enables or disables line `irq_num` at the distributor.
    pub fn set_enable(&mut self, irq_num: usize, enabled: bool)
        requires
            old(self)@.wf(),
            old(self)@.distributor,
            irq_num < MAX_IRQ_COUNT,
        ensures
            final(self)@ == (IrqState {
                enabled: old(self)@.enabled.update(irq_num as int, enabled),
                commands: old(self)@.commands.push(GicCommand::SetEnable { irq: irq_num, enabled }),
                ..old(self)@
            }),
            final(self)@.wf(),
    {
        self.enabled.set(irq_num, enabled);
        self.commands.push(GicCommand::SetEnable { irq: irq_num, enabled });
    }

    /// Installs `handler` for `irq_num` and enables the line, if the id is in
    /// range and has no handler yet. Returns whether it did; on `false`
    /// nothing changes, and an earlier handler stays in place.
    pub fn register_handler(&mut self, irq_num: usize, handler: H) -> (ok: bool)
        requires
            old(self)@.wf(),
            old(self)@.distributor,
            call_requires(handler, ()),
        ensures
            register_post(old(self)@, final(self)@, irq_num, handler, ok),
            ok ==> final(self)@.enabled[irq_num as int],
            final(self)@.wf(),
    {
        if irq_num < MAX_IRQ_COUNT && self.handlers[irq_num].is_none() {
            self.handlers.set(irq_num, Some(handler));
            self.set_enable(irq_num, true);
            true
        } else {
            false
        }
    }

    /// Acknowledges the highest-priority pending interrupt on core `cpu`
    /// through `ack`, the read of the interface's acknowledge register, and
    /// returns its id (`SPURIOUS_IRQ` when none is pending).
    pub fn fetch_irq(&self, cpu: usize, ack: impl FnOnce() -> usize) -> (r: usize)
        requires
            self@.cpu_ready(cpu),
            call_requires(ack, ()),
        ensures
            call_ensures(ack, (), r),
    {
        ack()
    }

    /// Invokes the handler registered for `irq`, if any; returns whether one was.
    pub fn dispatch_irq_common(&self, irq: usize) -> (handled: bool)
        requires
            self@.wf(),
        ensures
            handled == self@.has_handler(irq),
            handled ==> call_ensures(self@.handlers[irq as int]->0, (), ()),
    {
        if irq < MAX_IRQ_COUNT {
            match &self.handlers[irq] {
                Some(h) => {
                    h();
                    true
                },
                None => false,
            }
        } else {
            false
        }
    }

    /// Handles one interrupt on core `cpu`. When `irq_num` is
    /// `IRQ_ACK_PENDING` the interrupt is first acknowledged through `ack`;
    /// otherwise `irq_num` is the id. Unless the id is spurious, its handler
    /// (if any) is called once and then one EOI for it is issued; the
    /// history records acknowledge, handler call and EOI in that order.
    pub fn dispatch_irq(&mut self, cpu: usize, irq_num: usize, ack: impl FnOnce() -> usize) -> (d: Dispatch)
        requires
            old(self)@.wf(),
            old(self)@.cpu_ready(cpu),
            call_requires(ack, ()),
        ensures
            dispatch_post(old(self)@, final(self)@, cpu, irq_num, d),
            d.acked ==> call_ensures(ack, (), d.irq),
            final(self)@.wf(),
    {
        let ghost pre = self@;
        let acked = irq_num == IRQ_ACK_PENDING;
        let irq = if acked {
            self.fetch_irq(cpu, ack)
        } else {
            irq_num
        };
        if acked {
            self.history = Ghost(self.history@.push(IrqEvent::Ack { cpu, irq }));
        }
        if irq == SPURIOUS_IRQ {
            assert(self@.history =~= pre.history + delivery_events(cpu, irq, acked, false));
            return Dispatch { acked, irq, handled: false };
        }
        let handled = self.dispatch_irq_common(irq);
        if handled {
            self.history = Ghost(self.history@.push(IrqEvent::Handler { irq }));
        }
        self.commands.push(GicCommand::Eoi { cpu, irq });
        self.history = Ghost(self.history@.push(IrqEvent::Eoi { cpu, irq }));
        assert(self@.history =~= pre.history + delivery_events(cpu, irq, acked, handled));
        Dispatch { acked, irq, handled }
    }

    /// Hands out the hardware operations issued so far, oldest first, and
    /// clears the list.
    pub fn take_commands(&mut self) -> (cmds: Vec<GicCommand>)
        ensures
            cmds@ == old(self)@.commands,
            final(self)@ == (IrqState { commands: Seq::<GicCommand>::empty(), ..old(self)@ }),
    {
        let mut cmds: Vec<GicCommand> = Vec::new();
        core::mem::swap(&mut cmds, &mut self.commands);
        cmds
    }

    /// Whether line `irq_num` is enabled at the distributor.
    pub fn is_enabled(&self, irq_num: usize) -> (r: bool)
        requires
            self@.wf(),
        ensures
            r == (irq_num < MAX_IRQ_COUNT && self@.enabled[irq_num as int]),
    {
        irq_num < MAX_IRQ_COUNT && self.enabled[irq_num]
    }

    /// Whether a handler is registered for `irq_num`.
    pub fn has_handler(&self, irq_num: usize) -> (r: bool)
        requires
            self@.wf(),
        ensures
            r == self@.has_handler(irq_num),
    {
        irq_num < MAX_IRQ_COUNT && self.handlers[irq_num].is_some()
    }

    /// Whether core `cpu` has its CPU interface set up.
    pub fn cpu_ready(&self, cpu: usize) -> (r: bool)
        ensures
            r == self@.cpu_ready(cpu),
    {
        self.distributor && cpu < self.interfaces.len() && self.interfaces[cpu]
    }

    /// Whether the distributor has been set up.
    pub fn distributor_ready(&self) -> (r: bool)
        ensures
            r == self@.distributor,
    {
        self.distributor
    }
}

} // verus!

//! The interrupt controller: device events become interrupts of the guest.

use vstd::prelude::*;

use crate::errno::{Error, EIO};
use crate::hvf::ffi;
use crate::hvf::ffi::{hv_return_t, hv_vcpu_t};

verus! {

/// The number of interrupts whose state is tracked.
pub const MAX_IRQS: usize = 288;

/// The kinds of interrupt controller that a guest may be told.
#[derive(Clone, Copy, Debug, PartialEq, Eq, Structural)]
pub enum DeviceKind {
    /// Version 2 of the generic interrupt controller.
    ArmVgicV2,
    /// Version 3 of the generic interrupt controller.
    ArmVgicV3,
}

/// Whether a processor can run.
#[derive(Clone, Copy, Debug, PartialEq, Eq, Structural)]
pub enum VcpuRunState {
    Runnable,
    Interrupted,
}

/// The state of a processor as a snapshot shows it.
#[derive(Clone, Copy, Debug, PartialEq, Eq, Structural)]
pub enum MPState {
    Runnable,
    Stopped,
}

/// A device.
#[derive(Clone, Copy, Debug, PartialEq, Eq, Structural)]
pub enum DeviceId {
    /// A device on the bus, by vendor and device number.
    PciDeviceId { vendor_id: u16, device_id: u16 },
    /// A device of the platform, by its number.
    PlatformDeviceId(u16),
}

/// Where an event comes from.
#[derive(Debug, PartialEq, Eq)]
pub struct IrqEventSource {
    /// The device.
    pub device_id: DeviceId,
    /// The queue of the device.
    pub queue_id: usize,
    /// The name of the device.
    pub device_name: String,
}

impl IrqEventSource {
    /// The same source once more.
    pub fn duplicate(&self) -> (source: IrqEventSource)
        ensures
            source == *self,
    {
        IrqEventSource {
            device_id: self.device_id,
            queue_id: self.queue_id,
            device_name: self.device_name.clone(),
        }
    }
}

/// A device event that raises an interrupt.
pub struct IrqEvent {
    /// The number of the interrupt line.
    pub gsi: u32,
    /// The descriptor of the event.
    pub trigger_event: i32,
    /// Where the event comes from.
    pub source: IrqEventSource,
    /// Whether the line stays asserted.
    pub level_triggered: bool,
}

/// What serving an event asks for.
#[derive(Clone, Copy, Debug, PartialEq, Eq, Structural)]
pub enum IrqAction {
    /// Clear the event with this descriptor.
    Clear { trigger_event: i32 },
    /// Set a shared interrupt of the framework's controller.
    SetSpi { intid: u32, level: bool },
    /// Assert the interrupt line of a vCPU.
    Inject { vcpu: hv_vcpu_t },
}

/// The interrupt controller.
pub struct HvfGicChip {
    /// The number of vCPUs.
    pub num_vcpus: usize,
    /// The events, in the order in which they were registered.
    pub irq_events: Vec<IrqEvent>,
    /// Which interrupts are pending.
    pub pending_irqs: Vec<bool>,
    /// The handles of the vCPUs; zero stands for one that is not there yet.
    pub vcpu_handles: Vec<hv_vcpu_t>,
}

/// What is done with each vCPU that is there, in the order of their numbers.
pub open spec fn inject_all(handles: Seq<hv_vcpu_t>) -> Seq<IrqAction>
    decreases handles.len(),
{
    if handles.len() == 0 {
        Seq::empty()
    } else if handles.last() != 0 {
        inject_all(handles.drop_last()).push(IrqAction::Inject { vcpu: handles.last() })
    } else {
        inject_all(handles.drop_last())
    }
}

/// What serving an event asks for: the event is cleared, then the interrupt is
/// raised. An edge is a rise that is taken back at once. Without a controller of
/// the framework's own, every vCPU is interrupted.
pub open spec fn event_actions(
    event: IrqEvent,
    handles: Seq<hv_vcpu_t>,
    gic_available: bool,
) -> Seq<IrqAction> {
    let clear = IrqAction::Clear { trigger_event: event.trigger_event };
    let intid = (event.gsi + ffi::GIC_SPI_BASE) as u32;
    if !gic_available {
        seq![clear] + inject_all(handles)
    } else if event.level_triggered {
        seq![clear, IrqAction::SetSpi { intid, level: true }]
    } else {
        seq![
            clear,
            IrqAction::SetSpi { intid, level: true },
            IrqAction::SetSpi { intid, level: false },
        ]
    }
}

/// The state of the interrupts after one of them was set.
pub open spec fn with_pending(pending: Seq<bool>, irq: int, level: bool) -> Seq<bool> {
    if irq < pending.len() {
        pending.update(irq, level)
    } else {
        pending
    }
}

/// The state of the interrupts after the line was set with this result: nothing is
/// pending any more, unless setting it failed.
pub open spec fn after_delivery(pending: Seq<bool>, ret: hv_return_t) -> Seq<bool> {
    if ret == ffi::HV_SUCCESS {
        Seq::new(pending.len(), |i: int| false)
    } else {
        pending
    }
}

/// What delivering interrupts comes to.
pub open spec fn delivery_result(ret: hv_return_t) -> Result<(), Error> {
    if ret == ffi::HV_SUCCESS {
        Ok(())
    } else {
        Err(Error { number: EIO })
    }
}

/// The level that the interrupt line of a vCPU is to be set to.
pub open spec fn line_level(pending: Seq<bool>) -> bool {
    pending.contains(true)
}

/// The events once one was registered, or could not be cloned, and its index.
pub open spec fn with_event(
    events: Seq<IrqEvent>,
    irq: u32,
    trigger: Result<i32, Error>,
    source: IrqEventSource,
    level_triggered: bool,
) -> (Seq<IrqEvent>, Result<Option<usize>, Error>) {
    match trigger {
        Ok(trigger_event) => (
            events.push(IrqEvent { gsi: irq, trigger_event, source, level_triggered }),
            Ok(Some(events.len() as usize)),
        ),
        Err(e) => (events, Err(e)),
    }
}

/// The events once one that raises an edge was registered.
pub open spec fn with_edge_event(
    events: Seq<IrqEvent>,
    irq: u32,
    trigger: Result<i32, Error>,
    source: IrqEventSource,
) -> (Seq<IrqEvent>, Result<Option<usize>, Error>) {
    with_event(events, irq, trigger, source, false)
}

/// The events once one that raises a level was registered.
pub open spec fn with_level_event(
    events: Seq<IrqEvent>,
    irq: u32,
    trigger: Result<i32, Error>,
    source: IrqEventSource,
) -> (Seq<IrqEvent>, Result<Option<usize>, Error>) {
    with_event(events, irq, trigger, source, true)
}

/// The state of the interrupts of a new controller.
pub open spec fn none_pending() -> Seq<bool> {
    Seq::new(MAX_IRQS as nat, |i: int| false)
}

/// The index, the source and the descriptor of an event.
pub open spec fn token_of(events: Seq<IrqEvent>, i: int) -> (usize, IrqEventSource, i32) {
    (i as usize, events[i].source, events[i].trigger_event)
}

/// The events without those of an interrupt.
pub open spec fn without_events(events: Seq<IrqEvent>, irq: u32) -> Seq<IrqEvent> {
    events.filter(|e: IrqEvent| e.gsi != irq)
}

/// The state of the interrupts once an event was served, and what serving it asks for.
pub open spec fn event_served(
    events: Seq<IrqEvent>,
    pending: Seq<bool>,
    handles: Seq<hv_vcpu_t>,
    index: int,
    gic_available: bool,
) -> (Seq<bool>, Seq<IrqAction>) {
    if index < events.len() {
        (
            with_pending(pending, events[index].gsi as int, true),
            event_actions(events[index], handles, gic_available),
        )
    } else {
        (pending, Seq::empty())
    }
}

/// The handles after one was set: the list grows as needed.
pub open spec fn with_handle(handles: Seq<hv_vcpu_t>, vcpu_id: int, handle: hv_vcpu_t) -> Seq<
    hv_vcpu_t,
> {
    if vcpu_id < handles.len() {
        handles.update(vcpu_id, handle)
    } else {
        handles + Seq::new((vcpu_id - handles.len()) as nat, |i: int| 0) + seq![handle]
    }
}

impl HvfGicChip {
    /// A controller without events, on which no interrupt is pending.
    pub fn new(num_vcpus: usize) -> (r: Result<HvfGicChip, Error>)
        ensures
            r matches Ok(chip) && chip.num_vcpus == num_vcpus && chip.irq_events@.len() == 0
                && chip.vcpu_handles@.len() == 0 && chip.pending_irqs@ == none_pending(),
    {
        let mut pending_irqs: Vec<bool> = Vec::new();
        pending_irqs.resize(MAX_IRQS, false);
        assert(pending_irqs@ =~= Seq::new(MAX_IRQS as nat, |i: int| false));
        Ok(HvfGicChip { num_vcpus, irq_events: Vec::new(), pending_irqs, vcpu_handles: Vec::new() })
    }

    /// Records the handle of a vCPU.
    pub fn set_vcpu_handle(&mut self, vcpu_id: usize, handle: hv_vcpu_t)
        requires
            vcpu_id < usize::MAX,
        ensures
            final(self).vcpu_handles@ == with_handle(
                old(self).vcpu_handles@,
                vcpu_id as int,
                handle,
            ),
            final(self).num_vcpus == old(self).num_vcpus,
            final(self).irq_events == old(self).irq_events,
            final(self).pending_irqs == old(self).pending_irqs,
    {
        if self.vcpu_handles.len() <= vcpu_id {
            self.vcpu_handles.resize(vcpu_id + 1, 0);
        }
        self.vcpu_handles.set(vcpu_id, handle);
        assert(self.vcpu_handles@ =~= with_handle(
            old(self).vcpu_handles@,
            vcpu_id as int,
            handle,
        ));
    }

    fn register(
        &mut self,
        irq: u32,
        trigger: Result<i32, Error>,
        source: IrqEventSource,
        level_triggered: bool,
    ) -> (r: Result<Option<usize>, Error>)
        ensures
            (final(self).irq_events@, r) == with_event(
                old(self).irq_events@,
                irq,
                trigger,
                source,
                level_triggered,
            ),
            final(self).num_vcpus == old(self).num_vcpus,
            final(self).pending_irqs == old(self).pending_irqs,
            final(self).vcpu_handles == old(self).vcpu_handles,
    {
        match trigger {
            Ok(trigger_event) => {
                let index: usize = self.irq_events.len();
                self.irq_events.push(IrqEvent { gsi: irq, trigger_event, source, level_triggered });
                Ok(Some(index))
            },
            Err(e) => Err(e),
        }
    }

    /// Registers an event that raises `irq` by an edge and tells its index.
    /// `trigger` is the descriptor of a clone of the event, or the error that
    /// cloning it gave.
    pub fn register_edge_irq_event(
        &mut self,
        irq: u32,
        trigger: Result<i32, Error>,
        source: IrqEventSource,
    ) -> (r: Result<Option<usize>, Error>)
        ensures
            (final(self).irq_events@, r) == with_edge_event(
                old(self).irq_events@,
                irq,
                trigger,
                source,
            ),
            final(self).num_vcpus == old(self).num_vcpus,
            final(self).pending_irqs == old(self).pending_irqs,
            final(self).vcpu_handles == old(self).vcpu_handles,
    {
        self.register(irq, trigger, source, false)
    }

    /// Registers an event that raises `irq` by a level.
    pub fn register_level_irq_event(
        &mut self,
        irq: u32,
        trigger: Result<i32, Error>,
        source: IrqEventSource,
    ) -> (r: Result<Option<usize>, Error>)
        ensures
            (final(self).irq_events@, r) == with_level_event(
                old(self).irq_events@,
                irq,
                trigger,
                source,
            ),
            final(self).num_vcpus == old(self).num_vcpus,
            final(self).pending_irqs == old(self).pending_irqs,
            final(self).vcpu_handles == old(self).vcpu_handles,
    {
        self.register(irq, trigger, source, true)
    }

    fn unregister(&mut self, irq: u32)
        ensures
            final(self).irq_events@ == without_events(old(self).irq_events@, irq),
            final(self).num_vcpus == old(self).num_vcpus,
            final(self).pending_irqs == old(self).pending_irqs,
            final(self).vcpu_handles == old(self).vcpu_handles,
    {
        let ghost all = self.irq_events@;
        let ghost keep = |e: IrqEvent| e.gsi != irq;
        let ghost mut done: int = 0;
        let mut i: usize = 0;
        while i < self.irq_events.len()
            invariant
                0 <= done <= all.len(),
                i <= self.irq_events@.len(),
                keep == (|e: IrqEvent| e.gsi != irq),
                self.irq_events@.take(i as int) == all.take(done).filter(keep),
                self.irq_events@.skip(i as int) == all.skip(done),
                self.num_vcpus == old(self).num_vcpus,
                self.pending_irqs == old(self).pending_irqs,
                self.vcpu_handles == old(self).vcpu_handles,
            decreases self.irq_events.len() - i,
        {
            let ghost before = self.irq_events@;
            proof {
                assert(before.skip(i as int).len() == all.skip(done).len());
                assert(before.skip(i as int)[0] == all.skip(done)[0]);
                assert(all.take(done + 1).drop_last() =~= all.take(done));
                reveal(Seq::filter);
            }
            if self.irq_events[i].gsi == irq {
                self.irq_events.remove(i);
                assert(self.irq_events@.take(i as int) =~= before.take(i as int));
                assert(self.irq_events@.skip(i as int) =~= before.skip(i as int).skip(1));
            } else {
                assert(before.take(i + 1) =~= before.take(i as int).push(before[i as int]));
                assert(before.skip(i + 1) =~= before.skip(i as int).skip(1));
                i += 1;
            }
            assert(all.skip(done + 1) =~= all.skip(done).skip(1));
            proof {
                done = done + 1;
            }
        }
        assert(self.irq_events@.skip(i as int).len() == 0);
        assert(all.skip(done).len() == 0);
        assert(all.take(done) =~= all);
        assert(self.irq_events@.take(i as int) =~= self.irq_events@);
    }

    /// Drops all events of `irq`.
    pub fn unregister_edge_irq_event(&mut self, irq: u32)
        ensures
            final(self).irq_events@ == without_events(old(self).irq_events@, irq),
            final(self).num_vcpus == old(self).num_vcpus,
            final(self).pending_irqs == old(self).pending_irqs,
            final(self).vcpu_handles == old(self).vcpu_handles,
    {
        self.unregister(irq)
    }

    /// Drops all events of `irq`.
    pub fn unregister_level_irq_event(&mut self, irq: u32)
        ensures
            final(self).irq_events@ == without_events(old(self).irq_events@, irq),
            final(self).num_vcpus == old(self).num_vcpus,
            final(self).pending_irqs == old(self).pending_irqs,
            final(self).vcpu_handles == old(self).vcpu_handles,
    {
        self.unregister(irq)
    }

    /// The events to wait for: the index, the source and the descriptor of each.
    pub fn irq_event_tokens(&self) -> (tokens: Vec<(usize, IrqEventSource, i32)>)
        ensures
            tokens@.len() == self.irq_events@.len(),
            forall|i: int|
                0 <= i < tokens@.len() ==> #[trigger] tokens@[i] == token_of(self.irq_events@, i),
    {
        let mut tokens: Vec<(usize, IrqEventSource, i32)> = Vec::new();
        let mut i: usize = 0;
        while i < self.irq_events.len()
            invariant
                i <= self.irq_events@.len(),
                tokens@.len() == i,
                forall|j: int|
                    0 <= j < i ==> #[trigger] tokens@[j] == (
                        j as usize,
                        self.irq_events@[j].source,
                        self.irq_events@[j].trigger_event,
                    ),
            decreases self.irq_events.len() - i,
        {
            let event: &IrqEvent = &self.irq_events[i];
            tokens.push((i, event.source.duplicate(), event.trigger_event));
            i += 1;
        }
        tokens
    }

    /// Sets whether `irq` is pending. One that is not tracked is passed over.
    pub fn service_irq(&mut self, irq: u32, level: bool)
        ensures
            final(self).pending_irqs@ == with_pending(old(self).pending_irqs@, irq as int, level),
            final(self).num_vcpus == old(self).num_vcpus,
            final(self).irq_events == old(self).irq_events,
            final(self).vcpu_handles == old(self).vcpu_handles,
    {
        if (irq as usize) < self.pending_irqs.len() {
            self.pending_irqs.set(irq as usize, level);
        }
    }

    /// Serves the event at `event_index`: its interrupt is pending afterwards,
    /// and the actions are to be done in their order. An index without an event
    /// is passed over. `gic_available` says whether the framework has an
    /// interrupt controller of its own.
    pub fn service_irq_event(&mut self, event_index: usize, gic_available: bool) -> (actions: Vec<
        IrqAction,
    >)
        requires
            gic_available && event_index < old(self).irq_events@.len()
                ==> old(self).irq_events@[event_index as int].gsi + ffi::GIC_SPI_BASE <= u32::MAX,
        ensures
            (final(self).pending_irqs@, actions@) == event_served(
                old(self).irq_events@,
                old(self).pending_irqs@,
                old(self).vcpu_handles@,
                event_index as int,
                gic_available,
            ),
            final(self).num_vcpus == old(self).num_vcpus,
            final(self).irq_events == old(self).irq_events,
            final(self).vcpu_handles == old(self).vcpu_handles,
    {
        let mut actions: Vec<IrqAction> = Vec::new();
        if event_index >= self.irq_events.len() {
            return actions;
        }
        let gsi: u32 = self.irq_events[event_index].gsi;
        let level_triggered: bool = self.irq_events[event_index].level_triggered;
        let trigger_event: i32 = self.irq_events[event_index].trigger_event;
        let ghost event = self.irq_events@[event_index as int];
        actions.push(IrqAction::Clear { trigger_event });
        self.service_irq(gsi, true);
        if gic_available {
            let intid: u32 = gsi + ffi::GIC_SPI_BASE;
            actions.push(IrqAction::SetSpi { intid, level: true });
            if !level_triggered {
                actions.push(IrqAction::SetSpi { intid, level: false });
            }
            assert(actions@ =~= event_actions(event, self.vcpu_handles@, true));
        } else {
            let ghost handles = self.vcpu_handles@;
            let ghost clear = IrqAction::Clear { trigger_event };
            assert(handles.take(0) =~= Seq::<hv_vcpu_t>::empty());
            assert(actions@ =~= seq![clear] + inject_all(handles.take(0)));
            let mut i: usize = 0;
            while i < self.vcpu_handles.len()
                invariant
                    i <= self.vcpu_handles@.len(),
                    handles == self.vcpu_handles@,
                    actions@ == seq![clear] + inject_all(handles.take(i as int)),
                decreases self.vcpu_handles.len() - i,
            {
                let vcpu: hv_vcpu_t = self.vcpu_handles[i];
                assert(handles.take(i + 1).drop_last() =~= handles.take(i as int));
                if vcpu != 0 {
                    actions.push(IrqAction::Inject { vcpu });
                }
                i += 1;
                assert(actions@ =~= seq![clear] + inject_all(handles.take(i as int)));
            }
            assert(handles.take(i as int) =~= handles);
        }
        actions
    }

    /// The level that the interrupt line of a vCPU is to be set to: asserted if
    /// any interrupt is pending.
    pub fn inject_interrupts(&self) -> (level: bool)
        ensures
            level == line_level(self.pending_irqs@),
    {
        let mut i: usize = 0;
        while i < self.pending_irqs.len()
            invariant
                i <= self.pending_irqs@.len(),
                forall|j: int| 0 <= j < i ==> !self.pending_irqs@[j],
            decreases self.pending_irqs.len() - i,
        {
            if self.pending_irqs[i] {
                assert(self.pending_irqs@[i as int]);
                return true;
            }
            i += 1;
        }
        false
    }

    /// What follows once the interrupt line was set to the level that
    /// [`HvfGicChip::inject_interrupts`] told: nothing is pending any more,
    /// unless setting it failed.
    pub fn interrupts_injected(&mut self, ret: hv_return_t) -> (r: Result<(), Error>)
        ensures
            r == delivery_result(ret),
            final(self).pending_irqs@ == after_delivery(old(self).pending_irqs@, ret),
            final(self).num_vcpus == old(self).num_vcpus,
            final(self).irq_events == old(self).irq_events,
            final(self).vcpu_handles == old(self).vcpu_handles,
    {
        if ret != ffi::HV_SUCCESS {
            return Err(Error::new(EIO));
        }
        let mut i: usize = 0;
        while i < self.pending_irqs.len()
            invariant
                i <= self.pending_irqs@.len(),
                self.pending_irqs@.len() == old(self).pending_irqs@.len(),
                forall|j: int| 0 <= j < i ==> !self.pending_irqs@[j],
                self.num_vcpus == old(self).num_vcpus,
                self.irq_events == old(self).irq_events,
                self.vcpu_handles == old(self).vcpu_handles,
            decreases self.pending_irqs.len() - i,
        {
            self.pending_irqs.set(i, false);
            i += 1;
        }
        assert(self.pending_irqs@ =~= Seq::new(old(self).pending_irqs@.len(), |i: int| false));
        Ok(())
    }

    /// A vCPU can always run.
    pub fn wait_until_runnable(&self) -> (state: VcpuRunState)
        ensures
            state == VcpuRunState::Runnable,
    {
        VcpuRunState::Runnable
    }

    /// The state of every vCPU.
    pub fn get_mp_state(&self, vcpu_id: usize) -> (state: MPState)
        ensures
            state == MPState::Runnable,
    {
        MPState::Runnable
    }

    /// There is no event for delayed interrupts.
    pub fn irq_delayed_event_token(&self) -> (token: Option<i32>)
        ensures
            token is None,
    {
        None
    }

    /// The kind of controller that the guest is told.
    pub fn get_vgic_version(&self) -> (kind: DeviceKind)
        ensures
            kind == DeviceKind::ArmVgicV3,
    {
        DeviceKind::ArmVgicV3
    }

    /// There is no interrupt translation.
    pub fn has_vgic_its(&self) -> (b: bool)
        ensures
            !b,
    {
        false
    }
}

/// A pending interrupt asserts the line once: after it was delivered, nothing
/// is pending.
pub proof fn law_delivered_once(pending: Seq<bool>, irq: int)
    requires
        0 <= irq < pending.len(),
    ensures
        with_pending(pending, irq, true).contains(true),
        !Seq::new(with_pending(pending, irq, true).len(), |i: int| false).contains(true),
{
    assert(with_pending(pending, irq, true)[irq]);
}

/// What is done to the interrupts of a controller. The threads share the one
/// controller: each of them has a handle of it.
#[derive(Clone, Copy, Debug, PartialEq, Eq, Structural)]
pub enum SharedOp {
    /// The thread with this handle sets whether an interrupt is pending:
    /// [`HvfGicChip::service_irq`].
    Service { handle: usize, irq: u32, level: bool },
    /// The thread with this handle has set the line, with this result:
    /// [`HvfGicChip::interrupts_injected`].
    Delivered { handle: usize, ret: hv_return_t },
}

/// The state of the interrupts after these operations, one after the other. It is
/// the same state whichever handle an operation goes through.
pub open spec fn after_ops(pending: Seq<bool>, ops: Seq<SharedOp>) -> Seq<bool>
    decreases ops.len(),
{
    if ops.len() == 0 {
        pending
    } else {
        let before = after_ops(pending, ops.drop_last());
        match ops.last() {
            SharedOp::Service { handle: _, irq, level } => with_pending(before, irq as int, level),
            SharedOp::Delivered { handle: _, ret } => after_delivery(before, ret),
        }
    }
}

/// Whether an operation leaves a pending interrupt pending.
pub open spec fn keeps_pending(op: SharedOp, irq: u32) -> bool {
    match op {
        SharedOp::Service { handle: _, irq: other, level } => other != irq || level,
        SharedOp::Delivered { handle: _, ret } => ret != ffi::HV_SUCCESS,
    }
}

/// All handles of a controller see the same interrupts: what is marked as pending
/// through one handle is pending for every other, until one of them takes it back
/// or delivers it, and then the line is to be asserted; once one has delivered, none
/// has anything left to deliver.
pub proof fn law_handles_share(
    pending: Seq<bool>,
    marker: usize,
    irq: u32,
    between: Seq<SharedOp>,
    deliverer: usize,
)
    requires
        irq < pending.len(),
        forall|i: int| 0 <= i < between.len() ==> keeps_pending(#[trigger] between[i], irq),
    ensures
        ({
            let marked = seq![SharedOp::Service { handle: marker, irq, level: true }];
            let seen = after_ops(pending, marked + between);
            let delivered = seq![SharedOp::Delivered { handle: deliverer, ret: ffi::HV_SUCCESS }];
            &&& seen.len() == pending.len()
            &&& seen[irq as int]
            &&& seen.contains(true)
            &&& !after_ops(pending, marked + between + delivered).contains(true)
        }),
    decreases between.len(),
{
    let marked = seq![SharedOp::Service { handle: marker, irq, level: true }];
    let ops = marked + between;
    if between.len() == 0 {
        assert(ops =~= marked);
        assert(ops.drop_last() =~= Seq::<SharedOp>::empty());
        reveal_with_fuel(after_ops, 2);
    } else {
        law_handles_share(pending, marker, irq, between.drop_last(), deliverer);
        assert(ops.drop_last() =~= marked + between.drop_last());
        assert(ops.last() == between[between.len() - 1]);
    }
    let seen = after_ops(pending, ops);
    assert(seen.len() == pending.len());
    assert(seen[irq as int]);
    assert(seen.contains(true));
    let last = SharedOp::Delivered { handle: deliverer, ret: ffi::HV_SUCCESS };
    assert((ops + seq![last]).drop_last() =~= ops);
}

/// Setting one interrupt leaves the others as they are, and the last setting
/// counts.
pub proof fn law_interrupts_are_independent(
    pending: Seq<bool>,
    irq: int,
    other: int,
    a: bool,
    b: bool,
)
    requires
        0 <= irq < pending.len(),
        0 <= other < pending.len(),
        irq != other,
    ensures
        with_pending(pending, irq, a)[irq] == a,
        with_pending(pending, irq, a)[other] == pending[other],
        with_pending(with_pending(pending, irq, a), irq, b) == with_pending(pending, irq, b),
{
    assert(with_pending(with_pending(pending, irq, a), irq, b) =~= with_pending(pending, irq, b));
}

/// A vCPU's handle is found where it was set, and the others stay.
pub proof fn law_handles(handles: Seq<hv_vcpu_t>, vcpu_id: int, other: int, handle: hv_vcpu_t)
    requires
        0 <= vcpu_id,
        0 <= other < handles.len(),
        other != vcpu_id,
    ensures
        with_handle(handles, vcpu_id, handle)[vcpu_id] == handle,
        with_handle(handles, vcpu_id, handle)[other] == handles[other],
{
}

/// An event that is registered gets the next index, and is found there with its
/// interrupt, its descriptor and its source; the events before it keep their indices. An
/// event that cannot be cloned is not registered, and that is told.
pub proof fn law_events_are_registered(
    events: Seq<IrqEvent>,
    irq: u32,
    trigger: Result<i32, Error>,
    source: IrqEventSource,
    level: bool,
)
    requires
        events.len() < usize::MAX,
    ensures
        ({
            let (after, r) = with_event(events, irq, trigger, source, level);
            &&& trigger matches Err(e) ==> after == events && r == Err::<Option<usize>, Error>(e)
            &&& trigger matches Ok(descriptor) ==> {
                &&& r == Ok::<Option<usize>, Error>(Some(events.len() as usize))
                &&& after.len() == events.len() + 1
                &&& after.last().gsi == irq
                &&& after.last().trigger_event == descriptor
                &&& after.last().source == source
                &&& after.last().level_triggered == level
                &&& after.take(events.len() as int) == events
            }
        }),
{
    let (after, r) = with_event(events, irq, trigger, source, level);
    if trigger is Ok {
        assert(after.take(events.len() as int) =~= events);
    }
}

/// Dropping the events of an interrupt drops all of them and none of another; those that
/// are left keep their order. An event that was registered and dropped leaves what was
/// there before, if nothing of its interrupt was.
pub proof fn law_events_are_dropped(
    events: Seq<IrqEvent>,
    irq: u32,
    descriptor: i32,
    source: IrqEventSource,
    level: bool,
)
    ensures
        ({
            let left = without_events(events, irq);
            let added = with_event(events, irq, Ok(descriptor), source, level).0;
            &&& forall|i: int| 0 <= i < left.len() ==> (#[trigger] left[i]).gsi != irq
            &&& forall|e: IrqEvent| #[trigger] left.contains(e) <==> events.contains(e) && e.gsi != irq
            &&& without_events(added, irq) == left
            &&& (forall|i: int| 0 <= i < events.len() ==> (#[trigger] events[i]).gsi != irq) ==> left
                == events
        }),
{
    let keep = |e: IrqEvent| e.gsi != irq;
    let left = without_events(events, irq);
    let added = with_event(events, irq, Ok(descriptor), source, level).0;
    assert forall|i: int| 0 <= i < left.len() implies (#[trigger] left[i]).gsi != irq by {
        events.lemma_filter_pred(keep, i);
    }
    assert forall|e: IrqEvent| #[trigger] left.contains(e) <==> events.contains(e) && e.gsi
        != irq by {
        if left.contains(e) {
            let i = choose|i: int| 0 <= i < left.len() && left[i] == e;
            events.lemma_filter_pred(keep, i);
            lemma_left_events(events, irq, i);
        }
        if events.contains(e) && e.gsi != irq {
            let i = choose|i: int| 0 <= i < events.len() && events[i] == e;
            events.lemma_filter_contains(keep, i);
        }
    }
    assert(added.drop_last() =~= events);
    reveal(Seq::filter);
    if forall|i: int| 0 <= i < events.len() ==> (#[trigger] events[i]).gsi != irq {
        lemma_nothing_dropped(events, irq);
    }
}

proof fn lemma_left_events(events: Seq<IrqEvent>, irq: u32, i: int)
    requires
        0 <= i < without_events(events, irq).len(),
    ensures
        events.contains(without_events(events, irq)[i]),
    decreases events.len(),
{
    reveal(Seq::filter);
    let before = events.drop_last();
    let rest = without_events(before, irq);
    if i < rest.len() {
        lemma_left_events(before, irq, i);
        let j = choose|j: int| 0 <= j < before.len() && before[j] == rest[i];
        assert(events[j] == rest[i]);
    } else {
        assert(events[events.len() - 1] == events.last());
    }
}

proof fn lemma_nothing_dropped(events: Seq<IrqEvent>, irq: u32)
    requires
        forall|i: int| 0 <= i < events.len() ==> (#[trigger] events[i]).gsi != irq,
    ensures
        without_events(events, irq) == events,
    decreases events.len(),
{
    reveal(Seq::filter);
    if events.len() > 0 {
        let before = events.drop_last();
        assert forall|i: int| 0 <= i < before.len() implies (#[trigger] before[i]).gsi != irq by {
            assert(before[i] == events[i]);
        }
        lemma_nothing_dropped(before, irq);
        assert(events[events.len() - 1].gsi != irq);
        assert(without_events(events, irq) =~= events);
    } else {
        assert(without_events(events, irq) =~= events);
    }
}

/// Serving an event marks its interrupt as pending and no other, and clears the event
/// before anything else is done. Where the framework has a controller, the interrupt is
/// 32 above the number of its line there; it rises, and unless it is a level it falls
/// again. Where it has none, each vCPU that is there is interrupted, and nothing else. An
/// index without an event does nothing.
pub proof fn law_event_is_served(
    events: Seq<IrqEvent>,
    pending: Seq<bool>,
    handles: Seq<hv_vcpu_t>,
    index: int,
    gic_available: bool,
    other: int,
)
    requires
        0 <= index,
        0 <= other < pending.len(),
    ensures
        ({
            let (after, actions) = event_served(events, pending, handles, index, gic_available);
            let event = events[index];
            &&& after.len() == pending.len()
            &&& index >= events.len() ==> after == pending && actions.len() == 0
            &&& index < events.len() ==> {
                &&& after[other] == (pending[other] || other == event.gsi)
                &&& actions.len() >= 1
                &&& actions[0] == (IrqAction::Clear { trigger_event: event.trigger_event })
                &&& gic_available && event.gsi + 32 <= u32::MAX ==> {
                    &&& actions.len() == if event.level_triggered {
                        2int
                    } else {
                        3
                    }
                    &&& actions[1] == (IrqAction::SetSpi {
                        intid: (event.gsi + 32) as u32,
                        level: true,
                    })
                    &&& !event.level_triggered ==> actions[2] == (IrqAction::SetSpi {
                        intid: (event.gsi + 32) as u32,
                        level: false,
                    })
                }
                &&& !gic_available ==> {
                    &&& forall|i: int|
                        1 <= i < actions.len() ==> (#[trigger] actions[i] matches IrqAction::Inject {
                            vcpu,
                        } && vcpu != 0 && handles.contains(vcpu))
                    &&& forall|i: int|
                        0 <= i < handles.len() && #[trigger] handles[i] != 0 ==> actions.contains(
                            IrqAction::Inject { vcpu: handles[i] },
                        )
                }
            }
        }),
{
    let (after, actions) = event_served(events, pending, handles, index, gic_available);
    if index < events.len() && !gic_available {
        let clear = IrqAction::Clear { trigger_event: events[index].trigger_event };
        let injected = inject_all(handles);
        lemma_inject_all(handles);
        assert(actions == seq![clear] + injected);
        assert forall|i: int| 1 <= i < actions.len() implies (
        #[trigger] actions[i] matches IrqAction::Inject { vcpu } && vcpu != 0 && handles.contains(
            vcpu,
        )) by {
            assert(actions[i] == injected[i - 1]);
        }
        assert forall|i: int| 0 <= i < handles.len() && #[trigger] handles[i] != 0 implies actions.contains(
            IrqAction::Inject { vcpu: handles[i] },
        ) by {
            let j = choose|j: int|
                0 <= j < injected.len() && injected[j] == (IrqAction::Inject { vcpu: handles[i] });
            assert(actions[j + 1] == injected[j]);
        }
    }
}

proof fn lemma_inject_all(handles: Seq<hv_vcpu_t>)
    ensures
        forall|i: int|
            0 <= i < inject_all(handles).len() ==> (#[trigger] inject_all(
                handles,
            )[i] matches IrqAction::Inject { vcpu } && vcpu != 0 && handles.contains(vcpu)),
        forall|i: int|
            0 <= i < handles.len() && #[trigger] handles[i] != 0 ==> inject_all(handles).contains(
                IrqAction::Inject { vcpu: handles[i] },
            ),
    decreases handles.len(),
{
    if handles.len() > 0 {
        let before = handles.drop_last();
        lemma_inject_all(before);
        let all = inject_all(handles);
        let rest = inject_all(before);
        assert forall|i: int| 0 <= i < all.len() implies (#[trigger] all[i] matches IrqAction::Inject {
            vcpu,
        } && vcpu != 0 && handles.contains(vcpu)) by {
            if i < rest.len() {
                assert(all[i] == rest[i]);
                let vcpu = rest[i]->vcpu;
                let j = choose|j: int| 0 <= j < before.len() && before[j] == vcpu;
                assert(handles[j] == vcpu);
            } else {
                assert(handles[handles.len() - 1] == handles.last());
            }
        }
        assert forall|i: int| 0 <= i < handles.len() && #[trigger] handles[i] != 0 implies all.contains(
            IrqAction::Inject { vcpu: handles[i] },
        ) by {
            if i < before.len() {
                assert(before[i] == handles[i]);
                let j = choose|j: int|
                    0 <= j < rest.len() && rest[j] == (IrqAction::Inject { vcpu: handles[i] });
                assert(all[j] == rest[j]);
            } else {
                assert(all[all.len() - 1] == (IrqAction::Inject { vcpu: handles[i] }));
            }
        }
    }
}

/// The line of a vCPU is asserted exactly if some interrupt is pending. Once that was
/// told to the framework nothing is, and that is a success; if it could not be told, all
/// stays pending, and that is an input/output error.
pub proof fn law_pending_is_delivered(pending: Seq<bool>, ret: hv_return_t)
    ensures
        line_level(pending) <==> exists|i: int| 0 <= i < pending.len() && #[trigger] pending[i],
        after_delivery(pending, ret).len() == pending.len(),
        ret == 0 ==> delivery_result(ret) is Ok && !line_level(after_delivery(pending, ret)),
        ret != 0 ==> delivery_result(ret) == Err::<(), Error>(Error { number: 5 })
            && after_delivery(pending, ret) == pending,
{
    if exists|i: int| 0 <= i < pending.len() && #[trigger] pending[i] {
        let i = choose|i: int| 0 <= i < pending.len() && #[trigger] pending[i];
        assert(pending[i] == true);
    }
    if line_level(pending) {
        let i = choose|i: int| 0 <= i < pending.len() && pending[i] == true;
        assert(pending[i]);
    }
}

/// An edge is raised by an event that was registered as one, and served as a rise and a
/// fall; a level by one that was registered as one, and served as a rise.
pub proof fn law_edges_and_levels(
    events: Seq<IrqEvent>,
    irq: u32,
    descriptor: i32,
    source: IrqEventSource,
    pending: Seq<bool>,
    handles: Seq<hv_vcpu_t>,
)
    requires
        irq + 32 <= u32::MAX,
        events.len() < usize::MAX,
    ensures
        ({
            let edge = with_edge_event(events, irq, Ok(descriptor), source).0;
            let level = with_level_event(events, irq, Ok(descriptor), source).0;
            let n = events.len() as int;
            let rise = IrqAction::SetSpi { intid: (irq + 32) as u32, level: true };
            let fall = IrqAction::SetSpi { intid: (irq + 32) as u32, level: false };
            &&& event_served(edge, pending, handles, n, true).1.contains(rise)
            &&& event_served(edge, pending, handles, n, true).1.last() == fall
            &&& event_served(level, pending, handles, n, true).1.last() == rise
            &&& token_of(edge, n) == (n as usize, source, descriptor)
            &&& token_of(level, n) == (n as usize, source, descriptor)
        }),
{
    let edge = with_edge_event(events, irq, Ok(descriptor), source).0;
    let n = events.len() as int;
    let actions = event_served(edge, pending, handles, n, true).1;
    assert(actions[1] == (IrqAction::SetSpi { intid: (irq + 32) as u32, level: true }));
}

/// A new controller tracks 288 interrupts, none of which is pending.
pub proof fn law_nothing_is_pending_at_first(irq: int)
    ensures
        none_pending().len() == 288,
        0 <= irq < 288 ==> !none_pending()[irq],
        !line_level(none_pending()),
{
}

} // verus!

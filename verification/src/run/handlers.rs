//! The threads that hand out and serve interrupts.

use vstd::prelude::*;

use crate::errno::{Error, EIO};
use crate::irqchip::hvf_gic::{HvfGicChip, IrqEvent, IrqEventSource};

verus! {

/// A request to the thread that serves interrupts.
#[derive(Clone, Copy, Debug, PartialEq, Eq, Structural)]
pub enum IrqHandlerRequest {
    /// End.
    Exit,
    /// The events changed.
    RefreshIrqEventTokens,
    /// Anything else.
    Other,
}

/// What woke the thread that serves interrupts.
#[derive(Clone, Copy, Debug, PartialEq, Eq)]
pub enum IrqHandlerEvent {
    /// Waiting failed.
    WaitFailed,
    /// A request, or none if it could not be received.
    Control(Option<IrqHandlerRequest>),
    /// The event at this index.
    Irq(usize),
}

/// What the thread that serves interrupts does.
#[derive(Clone, Copy, Debug, PartialEq, Eq, Structural)]
pub enum IrqHandlerStep {
    /// End.
    Stop,
    /// Wait for the events anew: [`refresh_waits`].
    Refresh,
    /// Serve the event at this index.
    Service(usize),
    /// Nothing.
    Ignore,
}

/// What the thread that serves interrupts does on an event.
pub open spec fn irq_handler_next(event: IrqHandlerEvent) -> IrqHandlerStep {
    match event {
        IrqHandlerEvent::WaitFailed => IrqHandlerStep::Stop,
        IrqHandlerEvent::Control(None) => IrqHandlerStep::Stop,
        IrqHandlerEvent::Control(Some(IrqHandlerRequest::Exit)) => IrqHandlerStep::Stop,
        IrqHandlerEvent::Control(Some(IrqHandlerRequest::RefreshIrqEventTokens)) =>
            IrqHandlerStep::Refresh,
        IrqHandlerEvent::Control(Some(IrqHandlerRequest::Other)) => IrqHandlerStep::Ignore,
        IrqHandlerEvent::Irq(index) => IrqHandlerStep::Service(index),
    }
}

/// What the thread that serves interrupts does on an event.
pub fn irq_handler_step(event: IrqHandlerEvent) -> (step: IrqHandlerStep)
    ensures
        step == irq_handler_next(event),
{
    match event {
        IrqHandlerEvent::WaitFailed => IrqHandlerStep::Stop,
        IrqHandlerEvent::Control(None) => IrqHandlerStep::Stop,
        IrqHandlerEvent::Control(Some(request)) => match request {
            IrqHandlerRequest::Exit => IrqHandlerStep::Stop,
            IrqHandlerRequest::RefreshIrqEventTokens => IrqHandlerStep::Refresh,
            IrqHandlerRequest::Other => IrqHandlerStep::Ignore,
        },
        IrqHandlerEvent::Irq(index) => IrqHandlerStep::Service(index),
    }
}

/// A change of what is waited for.
#[derive(Clone, Copy, Debug, PartialEq, Eq, Structural)]
pub enum WaitRequest {
    /// Wait for the event with this descriptor, which has this index.
    Add { event: i32, index: usize },
    /// Wait no longer for the event with this descriptor.
    Delete { event: i32 },
}

/// Whether the thread goes on after a change that gave this result, or ends with
/// an error: it ends if an event cannot be waited for; whether waiting for one
/// could be ended does not matter.
pub open spec fn wait_outcome(request: WaitRequest, result: Result<(), Error>) -> Result<
    (),
    Error,
> {
    match request {
        WaitRequest::Add { .. } => result,
        WaitRequest::Delete { .. } => Ok(()),
    }
}

/// Whether the thread goes on after a change that gave this result, or ends with
/// an error.
pub fn after_wait_request(request: WaitRequest, result: Result<(), Error>) -> (r: Result<
    (),
    Error,
>)
    ensures
        r == wait_outcome(request, result),
{
    match request {
        WaitRequest::Add { .. } => result,
        WaitRequest::Delete { .. } => Ok(()),
    }
}

/// How many of these changes are made, and how making them ends, where each gives
/// the result of the same index.
pub open spec fn changes_made(
    requests: Seq<WaitRequest>,
    results: Seq<Result<(), Error>>,
) -> (nat, Result<(), Error>)
    decreases requests.len(),
{
    if requests.len() == 0 {
        (0, Ok(()))
    } else if wait_outcome(requests[0], results[0]) is Err {
        (1, wait_outcome(requests[0], results[0]))
    } else {
        let rest = changes_made(requests.skip(1), results.skip(1));
        (1 + rest.0, rest.1)
    }
}

/// All changes are made unless an event cannot be waited for: then that is the last
/// change, and its error is how the thread ends.
pub proof fn law_first_failing_add_ends(
    requests: Seq<WaitRequest>,
    results: Seq<Result<(), Error>>,
)
    requires
        results.len() == requests.len(),
    ensures
        ({
            let (made, end) = changes_made(requests, results);
            &&& made <= requests.len()
            &&& end is Ok ==> made == requests.len()
            &&& end is Err ==> made > 0 && requests[made - 1] is Add && results[made - 1] == end
            &&& forall|i: int|
                0 <= i < made && (end is Err ==> i < made - 1)
                    && #[trigger] requests[i] is Add ==> results[i] is Ok
        }),
    decreases requests.len(),
{
    if requests.len() > 0 && wait_outcome(requests[0], results[0]) is Ok {
        law_first_failing_add_ends(requests.skip(1), results.skip(1));
        let (made, end) = changes_made(requests, results);
        assert forall|i: int|
            0 <= i < made && (end is Err ==> i < made - 1)
                && #[trigger] requests[i] is Add implies results[i] is Ok by {
            if i > 0 {
                assert(requests.skip(1)[i - 1] == requests[i]);
                assert(results.skip(1)[i - 1] == results[i]);
            }
        }
    }
}

/// What makes the thread wait for events at first: each of them, with its index.
pub open spec fn add_all(tokens: Seq<(usize, IrqEventSource, i32)>) -> Seq<WaitRequest> {
    Seq::new(
        tokens.len(),
        |i: int| WaitRequest::Add { event: tokens[i].2, index: tokens[i].0 },
    )
}

/// What makes the thread wait for none of these events.
pub open spec fn delete_all(tokens: Seq<(usize, IrqEventSource, i32)>) -> Seq<WaitRequest> {
    Seq::new(tokens.len(), |i: int| WaitRequest::Delete { event: tokens[i].2 })
}

/// What makes the thread wait for the present events in place of those that it began with.
pub open spec fn refreshed(
    initial: Seq<(usize, IrqEventSource, i32)>,
    present: Seq<(usize, IrqEventSource, i32)>,
) -> Seq<WaitRequest> {
    delete_all(initial) + add_all(present)
}

/// What makes the thread wait for the events that it began with.
pub fn initial_waits(tokens: &Vec<(usize, IrqEventSource, i32)>) -> (requests: Vec<WaitRequest>)
    ensures
        requests@ == add_all(tokens@),
{
    let mut requests: Vec<WaitRequest> = Vec::new();
    let mut i: usize = 0;
    while i < tokens.len()
        invariant
            i <= tokens@.len(),
            requests@ =~= add_all(tokens@).take(i as int),
        decreases tokens.len() - i,
    {
        requests.push(WaitRequest::Add { event: tokens[i].2, index: tokens[i].0 });
        i += 1;
    }
    assert(requests@ =~= add_all(tokens@));
    requests
}

/// What makes the thread wait for the present events in place of those that it
/// began with.
pub fn refresh_waits(
    initial: &Vec<(usize, IrqEventSource, i32)>,
    present: &Vec<(usize, IrqEventSource, i32)>,
) -> (requests: Vec<WaitRequest>)
    ensures
        requests@ == refreshed(initial@, present@),
{
    let mut requests: Vec<WaitRequest> = Vec::new();
    let mut i: usize = 0;
    while i < initial.len()
        invariant
            i <= initial@.len(),
            requests@ =~= delete_all(initial@).take(i as int),
        decreases initial.len() - i,
    {
        requests.push(WaitRequest::Delete { event: initial[i].2 });
        i += 1;
    }
    let mut adds: Vec<WaitRequest> = initial_waits(present);
    requests.append(&mut adds);
    assert(requests@ =~= delete_all(initial@) + add_all(present@));
    requests
}

/// What a device asks of the interrupt controller.
pub enum IrqSetup {
    /// Raise an interrupt by an edge of an event.
    Event { irq: u32, source: IrqEventSource },
    /// Route an interrupt.
    Route,
    /// Drop the events of an interrupt.
    UnRegister { irq: u32 },
}

/// The events once a device asked something of the interrupt controller, and what comes
/// of that.
pub open spec fn setup_done(
    events: Seq<IrqEvent>,
    setup: IrqSetup,
    cloned: bool,
    trigger: Result<i32, Error>,
) -> (Seq<IrqEvent>, Result<(), Error>) {
    match setup {
        IrqSetup::Event { irq, source } => if !cloned {
            (events, Err(Error { number: EIO }))
        } else {
            match trigger {
                Ok(trigger_event) => (
                    events.push(
                        IrqEvent { gsi: irq, trigger_event, source, level_triggered: false },
                    ),
                    Ok(()),
                ),
                Err(e) => (events, Err(e)),
            }
        },
        IrqSetup::Route => (events, Ok(())),
        IrqSetup::UnRegister { irq } => if !cloned {
            (events, Err(Error { number: EIO }))
        } else {
            (events.filter(|e: IrqEvent| e.gsi != irq), Ok(()))
        },
    }
}

/// Does what a device asks of the interrupt controller. `cloned` says whether
/// the event could be cloned, `trigger` is the descriptor of the controller's
/// own clone, or the error that making it gave.
pub fn irq_setup(
    chip: &mut HvfGicChip,
    setup: IrqSetup,
    cloned: bool,
    trigger: Result<i32, Error>,
) -> (r: Result<(), Error>)
    ensures
        (final(chip).irq_events@, r) == setup_done(old(chip).irq_events@, setup, cloned, trigger),
        final(chip).num_vcpus == old(chip).num_vcpus,
        final(chip).pending_irqs == old(chip).pending_irqs,
        final(chip).vcpu_handles == old(chip).vcpu_handles,
{
    match setup {
        IrqSetup::Event { irq, source } => {
            if !cloned {
                return Err(Error::new(EIO));
            }
            match chip.register_edge_irq_event(irq, trigger, source) {
                Ok(_) => Ok(()),
                Err(e) => Err(e),
            }
        },
        IrqSetup::Route => Ok(()),
        IrqSetup::UnRegister { irq } => {
            if !cloned {
                return Err(Error::new(EIO));
            }
            chip.unregister_edge_irq_event(irq);
            Ok(())
        },
    }
}

/// Whether the thread that hands out interrupts goes on.
pub open spec fn goes_on(received: bool, answered: bool) -> bool {
    received && answered
}

/// Whether the thread that hands out interrupts goes on after a request was
/// received, if it was, and answered, if it could be.
pub fn msi_handler_continues(received: bool, answered: bool) -> (b: bool)
    ensures
        b == goes_on(received, answered),
{
    received && answered
}

/// The thread that serves interrupts stops exactly if it cannot wait, cannot receive a
/// request or is asked to; it waits anew exactly if it is asked to; and it serves exactly
/// the event that came.
pub proof fn law_interrupt_thread_goes_on(event: IrqHandlerEvent, index: usize)
    ensures
        irq_handler_next(event) is Stop <==> (event is WaitFailed || event
            == IrqHandlerEvent::Control(None) || event == IrqHandlerEvent::Control(
            Some(IrqHandlerRequest::Exit),
        )),
        irq_handler_next(event) is Refresh <==> event == IrqHandlerEvent::Control(
            Some(IrqHandlerRequest::RefreshIrqEventTokens),
        ),
        irq_handler_next(event) == IrqHandlerStep::Service(index) <==> event
            == IrqHandlerEvent::Irq(index),
        goes_on(true, true),
        !goes_on(false, true),
        !goes_on(true, false),
{
}

/// What a device asks of the interrupt controller is done: an event of it is added behind
/// the others, as an edge; the events of an interrupt are dropped, and no others; a route
/// changes nothing. What needs an event that could not be cloned fails and changes
/// nothing.
pub proof fn law_device_requests(
    events: Seq<IrqEvent>,
    setup: IrqSetup,
    cloned: bool,
    trigger: Result<i32, Error>,
)
    ensures
        ({
            let (after, r) = setup_done(events, setup, cloned, trigger);
            &&& r is Err ==> after == events
            &&& r is Ok <==> setup is Route || (cloned && (setup is Event ==> trigger is Ok))
            &&& !cloned && !(setup is Route) ==> r == Err::<(), Error>(Error { number: 5 })
            &&& cloned && setup is Event ==> (trigger matches Err(e) ==> r == Err::<(), Error>(e))
            &&& setup is Route ==> after == events
            &&& r is Ok && setup is Event ==> {
                &&& after.len() == events.len() + 1
                &&& after.take(events.len() as int) == events
                &&& after.last().gsi == setup->Event_irq
                &&& after.last().source == setup->source
                &&& trigger == Ok::<i32, Error>(after.last().trigger_event)
                &&& !after.last().level_triggered
            }
            &&& r is Ok && setup is UnRegister ==> after
                == crate::irqchip::hvf_gic::without_events(events, setup->UnRegister_irq)
        }),
{
    let (after, r) = setup_done(events, setup, cloned, trigger);
    if r is Ok && setup is Event {
        assert(after.take(events.len() as int) =~= events);
    }
}

/// What is waited for after changes that all succeed: the index of each event.
pub open spec fn waited_for(before: Map<i32, usize>, requests: Seq<WaitRequest>) -> Map<i32, usize>
    decreases requests.len(),
{
    if requests.len() == 0 {
        before
    } else {
        let earlier = waited_for(before, requests.drop_last());
        match requests.last() {
            WaitRequest::Add { event, index } => earlier.insert(event, index),
            WaitRequest::Delete { event } => earlier.remove(event),
        }
    }
}

proof fn lemma_adds(
    before: Map<i32, usize>,
    tokens: Seq<(usize, IrqEventSource, i32)>,
    event: i32,
)
    requires
        forall|i: int, j: int|
            0 <= i < j < tokens.len() ==> (#[trigger] tokens[i]).2 != (#[trigger] tokens[j]).2,
    ensures
        ({
            let after = waited_for(before, add_all(tokens));
            &&& forall|i: int|
                0 <= i < tokens.len() && (#[trigger] tokens[i]).2 == event ==> after.contains_key(
                    event,
                ) && after[event] == tokens[i].0
            &&& (forall|i: int| 0 <= i < tokens.len() ==> (#[trigger] tokens[i]).2 != event)
                ==> after.contains_key(event) == before.contains_key(event) && after[event]
                == before[event]
        }),
    decreases tokens.len(),
{
    if tokens.len() > 0 {
        let shorter = tokens.drop_last();
        assert forall|i: int, j: int| 0 <= i < j < shorter.len() implies (#[trigger] shorter[i]).2
            != (#[trigger] shorter[j]).2 by {
            assert(shorter[i] == tokens[i] && shorter[j] == tokens[j]);
        }
        lemma_adds(before, shorter, event);
        assert(add_all(tokens).drop_last() =~= add_all(shorter));
        let last = tokens[tokens.len() - 1];
        assert(add_all(tokens).last() == WaitRequest::Add { event: last.2, index: last.0 });
        let after = waited_for(before, add_all(tokens));
        assert forall|i: int| 0 <= i < tokens.len() && (#[trigger] tokens[i]).2 == event implies after.contains_key(
            event,
        ) && after[event] == tokens[i].0 by {
            if i < tokens.len() - 1 {
                assert(shorter[i] == tokens[i]);
                assert(tokens[i].2 != last.2);
            }
        }
        if forall|i: int| 0 <= i < tokens.len() ==> (#[trigger] tokens[i]).2 != event {
            assert forall|i: int| 0 <= i < shorter.len() implies (#[trigger] shorter[i]).2 != event by {
                assert(shorter[i] == tokens[i]);
            }
            assert(last.2 != event);
        }
    }
}

proof fn lemma_deletes(
    before: Map<i32, usize>,
    tokens: Seq<(usize, IrqEventSource, i32)>,
    event: i32,
)
    ensures
        ({
            let after = waited_for(before, delete_all(tokens));
            &&& after.contains_key(event) <==> before.contains_key(event) && forall|i: int|
                0 <= i < tokens.len() ==> (#[trigger] tokens[i]).2 != event
        }),
    decreases tokens.len(),
{
    if tokens.len() > 0 {
        let shorter = tokens.drop_last();
        lemma_deletes(before, shorter, event);
        assert(delete_all(tokens).drop_last() =~= delete_all(shorter));
        let last = tokens[tokens.len() - 1];
        assert(delete_all(tokens).last() == WaitRequest::Delete { event: last.2 });
        if forall|i: int| 0 <= i < shorter.len() ==> (#[trigger] shorter[i]).2 != event {
            if last.2 != event {
                assert forall|i: int| 0 <= i < tokens.len() implies (#[trigger] tokens[i]).2
                    != event by {
                    if i < shorter.len() {
                        assert(tokens[i] == shorter[i]);
                    }
                }
            }
        } else {
            let i = choose|i: int| 0 <= i < shorter.len() && (#[trigger] shorter[i]).2 == event;
            assert(tokens[i].2 == event);
        }
    }
}

proof fn lemma_waited_for_concat(before: Map<i32, usize>, a: Seq<WaitRequest>, b: Seq<WaitRequest>)
    ensures
        waited_for(before, a + b) == waited_for(waited_for(before, a), b),
    decreases b.len(),
{
    if b.len() > 0 {
        assert((a + b).drop_last() =~= a + b.drop_last());
        lemma_waited_for_concat(before, a, b.drop_last());
    } else {
        assert(a + b =~= a);
    }
}

/// The thread that serves interrupts waits for the events that it began with, each under
/// its index; and after a refresh it waits for exactly the present events, each under its
/// index, where before it waited for none but those that it began with.
pub proof fn law_waits_follow_the_events(
    initial: Seq<(usize, IrqEventSource, i32)>,
    present: Seq<(usize, IrqEventSource, i32)>,
    event: i32,
)
    requires
        forall|i: int, j: int|
            0 <= i < j < initial.len() ==> (#[trigger] initial[i]).2 != (#[trigger] initial[j]).2,
        forall|i: int, j: int|
            0 <= i < j < present.len() ==> (#[trigger] present[i]).2 != (#[trigger] present[j]).2,
    ensures
        ({
            let began = waited_for(Map::empty(), add_all(initial));
            let after = waited_for(began, refreshed(initial, present));
            &&& forall|i: int|
                0 <= i < initial.len() && (#[trigger] initial[i]).2 == event ==> began.contains_key(
                    event,
                ) && began[event] == initial[i].0
            &&& forall|i: int|
                0 <= i < present.len() && (#[trigger] present[i]).2 == event ==> after.contains_key(
                    event,
                ) && after[event] == present[i].0
            &&& (forall|i: int| 0 <= i < present.len() ==> (#[trigger] present[i]).2 != event)
                ==> !after.contains_key(event)
        }),
{
    let began = waited_for(Map::empty(), add_all(initial));
    let cleared = waited_for(began, delete_all(initial));
    lemma_adds(Map::empty(), initial, event);
    lemma_deletes(began, initial, event);
    lemma_adds(cleared, present, event);
    lemma_waited_for_concat(began, delete_all(initial), add_all(present));
}

} // verus!

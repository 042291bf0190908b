use crosvm_macos::cros_async::event::{
    AsyncError, AsyncErrorSys, AsyncTube, AsyncTubeError, EventAsync, ExecutorKindSys,
};
use crosvm_macos::cros_async::kqueue_reactor::{
    EventAction, EventType, KeventRequest, KqueueReactor, PendingOperation, PollStep,
    ReactorError, ReactorParts, RegisteredSource, EVFILT_READ, EVFILT_WRITE, WAKE_TOKEN,
};
use crosvm_macos::cros_async::kqueue_source::{
    io_step, IoStep, KqueueSource, MemRegion, TransferError, TransferStep,
};
use crosvm_macos::errno::{Error, EAGAIN, EINTR, ENODATA};
use crosvm_macos::tube::Tube;

const E: Error = Error { number: 9 };

fn parts() -> ReactorParts {
    ReactorParts { kq: Ok(3), pipe: Ok((4, 5)), read_flags: Ok(()), write_flags: Ok(()) }
}

fn reactor() -> KqueueReactor {
    let (reactor, request) = KqueueReactor::new_inner(parts()).ok().unwrap();
    assert_eq!(
        request,
        KeventRequest { ident: 4, filter: EVFILT_READ, flags: 0x21, token: WAKE_TOKEN }
    );
    reactor.wake_registered(Ok(())).ok().unwrap()
}

#[test]
fn reactor_creation() {
    let r = reactor();
    assert_eq!((r.kq, r.wake_read, r.wake_write), (3, 4, 5));
    let broken = ReactorParts { kq: Err(E), ..parts() };
    assert_eq!(KqueueReactor::new_inner(broken).err(), Some(ReactorError::Os(E)));
    let broken = ReactorParts { pipe: Err(E), ..parts() };
    assert_eq!(KqueueReactor::new_inner(broken).err(), Some(ReactorError::Os(E)));
    assert_eq!(r.as_raw_descriptors(), vec![3, 4, 5]);
}

fn add(r: &mut KqueueReactor, fd: i32, event: EventType) -> usize {
    let request = r.add_operation(fd, event).unwrap();
    let token = r.operation_added(fd, Ok(())).unwrap();
    assert_eq!(request.token, token);
    assert_eq!(request.ident, fd);
    assert_ne!(token, WAKE_TOKEN);
    token
}

#[test]
fn operations_from_start_to_end() {
    let mut r = reactor();
    let read = add(&mut r, 10, EventType::Read);
    let write = add(&mut r, 11, EventType::Write);
    assert_ne!(read, write);
    assert_eq!(r.add_operation(10, EventType::Write).unwrap().filter, EVFILT_WRITE);
    assert_eq!(r.add_operation(10, EventType::Nothing), Err(ReactorError::InvalidInput));
    assert_eq!(r.operation_added(12, Err(E)), Err(ReactorError::Os(E)));
    assert!(!r.is_ready(read, 77));
    assert_eq!(
        r.wait_for_work(&vec![WAKE_TOKEN, read, 999]),
        vec![EventAction::DrainWakePipe, EventAction::Wake(Some(77)), EventAction::Ignore]
    );
    assert!(r.is_ready(read, 77));
    assert!(!r.is_ready(write, 78));
    assert!(r.can_report(&vec![write, WAKE_TOKEN, WAKE_TOKEN, 999, 999]));
    assert!(!r.can_report(&vec![write, write]));
    let mut again = reactor();
    let done = add(&mut again, 10, EventType::Read);
    again.wait_for_work(&vec![done]);
    assert!(!again.can_report(&vec![done]));
    assert_eq!(
        r.cancel_operation(write),
        vec![
            KeventRequest { ident: 11, filter: EVFILT_READ, flags: 2, token: 0 },
            KeventRequest { ident: 11, filter: EVFILT_WRITE, flags: 2, token: 0 },
        ]
    );
}

#[test]
fn executor_drop_wakes_all() {
    let mut r = reactor();
    let a = add(&mut r, 10, EventType::Read);
    let b = add(&mut r, 11, EventType::Read);
    assert!(!r.is_ready(a, 1));
    assert!(!r.is_ready(b, 2));
    let mut wakers = r.on_executor_drop();
    wakers.sort();
    assert_eq!(wakers, vec![1, 2]);
}

#[test]
fn waiting_may_be_interrupted() {
    assert_eq!(KqueueReactor::wait_failed(Error::new(EINTR)), Ok(()));
    assert_eq!(KqueueReactor::wait_failed(E), Err(ReactorError::Os(E)));
}

#[test]
fn pending_operations() {
    let mut r = reactor();
    let token = add(&mut r, 10, EventType::Read);
    let mut pending = PendingOperation { token: Some(token) };
    assert_eq!(pending.poll(&mut r, 5), PollStep::Pending);
    r.wait_for_work(&vec![token]);
    assert_eq!(pending.poll(&mut r, 5), PollStep::Ready(Ok(())));
    assert_eq!(
        PendingOperation { token: Some(token) }.poll_without_executor(),
        PollStep::Ready(Err(ReactorError::ExecutorGone))
    );
    let token = add(&mut r, 10, EventType::Read);
    let mut pending = PendingOperation { token: Some(token) };
    assert_eq!(pending.cancel(&mut r).len(), 2);
    assert!(pending.cancel(&mut r).is_empty());
    assert_eq!((r.kq, r.wake_read, r.wake_write), (3, 4, 5));
}

#[test]
fn sources_are_registered() {
    let r = reactor();
    let source = RegisteredSource::new("file", Ok(()), Ok(20)).unwrap();
    assert_eq!(source.wait_readable(Some(&r)).unwrap().ident, 20);
    assert_eq!(source.wait_writable(Some(&r)).unwrap().filter, EVFILT_WRITE);
    assert_eq!(source.wait_readable(None), Err(ReactorError::ExecutorGone));
    assert_eq!(
        RegisteredSource::new("file", Err(E), Ok(20)).err(),
        Some(ReactorError::SetFlags(E))
    );
    assert_eq!(
        RegisteredSource::new("file", Ok(()), Err(E)).err(),
        Some(ReactorError::Os(E))
    );
}

#[test]
fn reads_and_writes() {
    assert_eq!(io_step(Ok(5), EventType::Read), IoStep::Done(5));
    assert_eq!(io_step(Err(Error::new(EAGAIN)), EventType::Write), IoStep::Wait(EventType::Write));
    assert_eq!(io_step(Err(E), EventType::Read), IoStep::Fail(E));
    let mut source = KqueueSource::new(1u8, Ok(()), Ok(20)).ok().unwrap();
    assert_eq!(source.read_to_vec(Ok(3)), IoStep::Done(3));
    let again = Err(Error::new(EAGAIN));
    assert_eq!(source.read_to_vec(again), IoStep::Wait(EventType::Read));
    assert_eq!(source.write_from_vec(again), IoStep::Wait(EventType::Write));
    assert_eq!(source.write_from_vec(Err(E)), IoStep::Fail(E));
    assert_eq!(source.fsync(Ok(())), Ok(()));
    assert!(source.fsync(Err(E)).is_err());
    *source.as_source_mut() = 2;
    assert_eq!(*source.as_source(), 2);
    assert_eq!(source.punch_hole(1, 2).fp_length, 2);
    assert_eq!(source.write_zeroes_at(2), vec![0, 0]);
    assert_eq!(source.wait_readable(None), Err(ReactorError::ExecutorGone));
    assert_eq!(source.into_source(), 2);
}

#[test]
fn regions_are_transferred_without_gaps() {
    let source = KqueueSource::new(1u8, Ok(()), Ok(20)).ok().unwrap();
    let regions = vec![MemRegion { offset: 0, len: 10 }, MemRegion { offset: 50, len: 5 }];
    let mut transfer = source.read_to_mem(Some(100), regions.clone());
    assert_eq!(
        transfer.step(),
        TransferStep::Transfer { region: regions[0], offset: Some(100) }
    );
    assert_eq!(
        transfer.transferred(true, Err(Error::new(EAGAIN))),
        TransferStep::Wait {
            region: regions[0],
            offset: Some(100),
            readiness: EventType::Read
        }
    );
    assert_eq!(
        transfer.transferred(true, Ok(7)),
        TransferStep::Transfer { region: regions[1], offset: Some(107) }
    );
    assert_eq!(transfer.transferred(true, Ok(5)), TransferStep::Done(Ok(12)));
    let mut transfer = source.write_from_mem(None, regions.clone());
    assert_eq!(
        transfer.transferred(true, Err(Error::new(EAGAIN))),
        TransferStep::Wait { region: regions[0], offset: None, readiness: EventType::Write }
    );
    assert_eq!(
        transfer.transferred(false, Ok(0)),
        TransferStep::Done(Err(TransferError::InvalidRegion))
    );
    assert_eq!(
        transfer.transferred(true, Err(E)),
        TransferStep::Done(Err(TransferError::Os(E)))
    );
}

#[test]
fn asynchronous_events() {
    let event = EventAsync::new(Ok(4)).unwrap();
    assert_eq!(event.next_val(Ok(1)), Ok(1));
    assert_eq!(
        event.next_val_reset(Ok(0)),
        Err(AsyncError::EventAsync(Error::new(ENODATA)))
    );
    assert_eq!(event.next_val(Err(AsyncError::Io(E))), Err(AsyncError::Io(E)));
    let unimplemented = AsyncErrorSys::Unimplemented(E);
    assert_eq!(Error::from(unimplemented), E);
    assert_eq!(Error::from(AsyncError::TimerAsync(unimplemented)), E);
    assert_eq!(Error::from(AsyncError::Timer(E)), E);
    assert!(matches!(
        AsyncTube::new(Tube { socket: 1 }),
        Err(AsyncTubeError::Unsupported)
    ));
    assert_eq!(ExecutorKindSys::Kqueue, ExecutorKindSys::Kqueue);
}

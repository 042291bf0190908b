use crosvm_macos::base::context::EventContext;
use crosvm_macos::base::event::{EventWaitResult, PlatformEvent};
use crosvm_macos::base::ioctl::{
    ioctl_expr, ioctl_io_nr, ioctl_ioc_nr, ioctl_ior_nr, ioctl_iow_nr, ioctl_iowr_nr,
};
use crosvm_macos::base::terminal::{modify_mode, FlagChange, Stdin, Terminal, O_NONBLOCK};
use crosvm_macos::base::timer::{Timer, TimerEvent, TimerMap};
use crosvm_macos::base::{
    allocate, allocate_fallback, enable_high_res_timers, file_punch_hole, file_write_zeroes_at,
    get_cpu_affinity, pipe, set_cpu_affinity, set_thread_name, shm_name, system_result, FStore,
    PlatformSyslog, PunchHoleArgs, SafeDescriptor, SharedMemory,
};
use crosvm_macos::cros_async::kqueue_reactor::EventType;
use crosvm_macos::errno::{Error, EAGAIN, EINVAL, ENOENT, ENOMEM, EPIPE};

const LAST: Error = Error { number: 9 };

#[test]
fn thread_names() {
    assert_eq!(set_thread_name("vcpu0", 0), Ok(()));
    assert_eq!(set_thread_name("vcpu0", 3), Err(Error::new(3)));
    assert_eq!(set_thread_name("vc\0pu", 0), Err(Error::new(EINVAL)));
}

#[test]
fn processors() {
    assert_eq!(get_cpu_affinity(3, LAST), Ok(vec![0, 1, 2]));
    assert_eq!(get_cpu_affinity(0, LAST), Err(LAST));
    assert_eq!(set_cpu_affinity(&vec![1]), Ok(()));
    assert!(enable_high_res_timers().is_ok());
    assert_eq!(PlatformSyslog::new(), (None, None));
}

#[test]
fn file_arguments() {
    assert_eq!(
        file_punch_hole(5, 6),
        PunchHoleArgs { fp_flags: 0, reserved: 0, fp_offset: 5, fp_length: 6 }
    );
    assert_eq!(file_write_zeroes_at(3), vec![0, 0, 0]);
    assert_eq!(system_result(-1, LAST), Err(LAST));
    assert_eq!(system_result(7, LAST), Ok(7));
    assert_eq!(
        allocate(u64::MAX, 4096),
        FStore {
            fst_flags: 4,
            fst_posmode: 0,
            fst_offset: -1,
            fst_length: 4096,
            fst_bytesalloc: 0
        }
    );
    assert_eq!(allocate_fallback(0, 10, 20), None);
    assert_eq!(allocate_fallback(-1, 10, 20), Some(30));
}

#[test]
fn shared_memory_objects() {
    assert_eq!(shm_name(Some("ram")), "/crosvm_ram");
    assert_eq!(shm_name(None), "/crosvm_aetheria_shm");
    assert_eq!(
        SharedMemory::new(10, Ok(3), Ok(())),
        (Ok(SharedMemory { descriptor: 3, size: 10 }), false)
    );
    assert_eq!(SharedMemory::new(10, Err(LAST), Ok(())), (Err(LAST), false));
    assert_eq!(SharedMemory::new(10, Ok(3), Err(LAST)), (Err(LAST), true));
    assert_eq!(SharedMemory::from_safe_descriptor(4, 5).descriptor, 4);
}

#[test]
fn pipes() {
    assert_eq!(pipe(Ok((3, 4)), Ok(()), Ok(())), Ok((3, 4)));
    assert_eq!(pipe(Err(LAST), Ok(()), Ok(())), Err(LAST));
    assert_eq!(pipe(Ok((3, 4)), Err(LAST), Ok(())), Err(LAST));
    assert_eq!(pipe(Ok((3, 4)), Ok(()), Err(LAST)), Err(LAST));
}

#[test]
fn events_are_pipes() {
    let event = PlatformEvent::new(Ok((3, 4))).unwrap();
    assert_eq!(PlatformEvent::new(Err(LAST)), Err(LAST));
    assert_eq!(event.as_raw_descriptor(), 3);
    assert_eq!(event.signal(Ok(1)), Ok(()));
    assert_eq!(event.signal(Err(Error::new(EAGAIN))), Ok(()));
    assert_eq!(event.signal(Err(LAST)), Err(LAST));
    assert_eq!(event.wait(1, LAST), Ok(()));
    assert_eq!(event.wait(0, LAST), Err(LAST));
    assert_eq!(event.wait_timeout(1, LAST), Ok(EventWaitResult::Signaled));
    assert_eq!(event.wait_timeout(0, LAST), Ok(EventWaitResult::TimedOut));
    assert_eq!(event.wait_timeout(-1, LAST), Err(LAST));
    assert!(event.reset(64) && !event.reset(0) && !event.reset(-1));
    assert_eq!(
        event.try_clone(Ok(5), Ok(6)),
        Ok(PlatformEvent { read_end: 5, write_end: 6 })
    );
    assert_eq!(event.try_clone(Ok(5), Err(LAST)), Err(LAST));
}

#[test]
fn sent_events_are_waited_for() {
    let event = PlatformEvent { read_end: 3, write_end: 4 };
    let sent = SafeDescriptor::from(event);
    let received = PlatformEvent::from(sent);
    assert_eq!(received, PlatformEvent { read_end: 3, write_end: -1 });
    assert_eq!(PlatformEvent::from_raw_descriptor(3), received);
    assert_eq!(event.into_raw_descriptor(), 3);
}

#[test]
fn event_time_limits() {
    assert_eq!(PlatformEvent::timeout_ms(0), 0);
    assert_eq!(PlatformEvent::timeout_ms(0x7fff_ffff), i32::MAX);
    assert_eq!(PlatformEvent::timeout_ms(0x8000_0000), i32::MIN);
    assert_eq!(PlatformEvent::timeout_ms(0x1_0000_0005), 5);
}

#[test]
fn timers() {
    let mut map = TimerMap::new();
    let outcome = Timer::new(&mut map, Err(LAST), Ok(1));
    assert_eq!((outcome.result, outcome.close_pipe), (Err(LAST), false));
    let outcome = Timer::new(&mut map, Ok((3, 4)), Err(LAST));
    assert_eq!((outcome.result, outcome.close_pipe), (Err(LAST), true));
    let unwatched = Timer::new(&mut map, Ok((5, 6)), Ok(7)).result.unwrap();
    assert_eq!(unwatched.watched(false), Err(Error::new(ENOMEM)));
    assert_eq!(unwatched.kqueue_fd(&map), Ok(7));
    let timer = Timer::new(&mut map, Ok((8, 9)), Ok(10)).result.unwrap();
    let mut timer = timer.watched(true).unwrap();
    assert_eq!(timer.kqueue_fd(&map), Ok(10));
    assert_eq!(
        timer.reset_repeating(&map, 1_000),
        Ok((
            10,
            TimerEvent { ident: 0, filter: -7, flags: 1, fflags: 4, data: 1_000 }
        ))
    );
    assert_eq!(timer.interval, Some(1_000));
    assert_eq!(
        timer.reset_oneshot(&map, 1 << 63),
        Err(Error::new(EINVAL))
    );
    assert_eq!(timer.interval, None);
    assert_eq!(timer.reset_oneshot(&map, 5).unwrap().1.flags, 0x11);
    assert_eq!(
        timer.clear(&map),
        Ok((10, TimerEvent { ident: 0, filter: -7, flags: 2, fflags: 0, data: 0 }))
    );
    let stranger = Timer { handle: 99, interval: None };
    assert_eq!(stranger.clear(&map), Err(Error::new(ENOENT)));
    assert_eq!(timer.wait(1, LAST), Ok(()));
    assert_eq!(timer.wait(-1, LAST), Err(LAST));
    assert!(timer.mark_waited(3) && !timer.mark_waited(-1));
    assert_eq!(timer.resolution(0, 0, 1, LAST), Ok((0, 1)));
    assert_eq!(timer.resolution(-1, 0, 1, LAST), Err(LAST));
    assert!(Timer::watcher_continues(1) && !Timer::watcher_continues(0));
    assert!(Timer::watcher_told(Ok(1)) && Timer::watcher_told(Err(Error::new(EAGAIN))));
    assert!(!Timer::watcher_told(Err(Error::new(EPIPE))));
}

#[test]
fn terminal_modes() {
    let tty = Stdin {};
    assert_eq!(tty.tty_fd(), 0);
    assert_eq!(tty.set_raw_mode(0x5cb), 0x443);
    assert_eq!(tty.set_canon_mode(0x443), 0x5cb);
    assert_eq!(tty.set_canon_mode(tty.set_raw_mode(0x200)), 0x388);
    assert_eq!(tty.set_non_block(true), FlagChange::Raise(O_NONBLOCK));
    assert_eq!(tty.set_non_block(false), FlagChange::Lower(O_NONBLOCK));
    assert_eq!(modify_mode(Ok(()), Ok(())), Ok(()));
    assert_eq!(modify_mode(Err(LAST), Ok(())), Err(LAST));
    assert_eq!(modify_mode(Ok(()), Err(LAST)), Err(LAST));
}

#[test]
fn control_call_numbers() {
    assert_eq!(ioctl_io_nr(0xaf, 1), 0xaf01);
    assert_eq!(ioctl_ior_nr(0xaf, 0, 8), 0x4008_af00);
    assert_eq!(ioctl_iow_nr(0xaf, 0, 8), 0x2008_af00);
    assert_eq!(ioctl_iowr_nr(0xaf, 2, 4), 0x6004_af02);
    assert_eq!(ioctl_ioc_nr(2, 0xaf, 3, 4, 1), ioctl_expr(2, 0xaf, 4, 4));
}

#[test]
fn event_context_never_fires() {
    let ctx: EventContext<u32> = EventContext::new().unwrap();
    assert_eq!(ctx.add_for_event(3, EventType::Read, 7), Ok(()));
    assert_eq!(ctx.modify(3, EventType::Write, 7), Ok(()));
    assert!(ctx.wait().unwrap().is_empty());
    assert!(ctx.wait_timeout(10).unwrap().is_empty());
    assert_eq!(ctx.delete(3), Ok(()));
    assert_eq!(ctx.as_raw_descriptor(), -1);
    assert!(EventContext::build_with(&vec![(3, 1u32)]).is_ok());
}

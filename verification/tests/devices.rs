use crosvm_macos::cros_async::event::ExecutorKindSys;
use crosvm_macos::display::{
    copy_image, DisplayExternalResourceImport, DisplayShm, GpuDisplay, GpuDisplayError,
    HeaderWrite, ImportError, MacosGpuDisplayExt, ShmSurface,
};
use crosvm_macos::errno::{Error, EIO};
use crosvm_macos::handle::{add_clone, AhbInfo, HandleError, RutabagaHandle};
use crosvm_macos::tube::{frame, ProtoTube, Recv, RecvStep, Tube, TubeError};
use crosvm_macos::virtio::block::{get_seg_max, BlockAsync, DiskOption};
use crosvm_macos::virtio::fsevents::{
    fsevents_callback, line_step, FsEventsError, FsEventsMonitor, FsNext, FsResource, FsStage, LineStep, StaleSet,
};
use crosvm_macos::virtio::net::{
    process_mrg_rx, process_rx, process_tx, validate_and_configure_tap,
    tx_step, virtio_features_to_tap_offload, FrameSent, FrameWrite, NetError, RxStep, TxEvent,
    TxStep,
};
use crosvm_macos::virtio::vhost_user_backend::{block, gpu, net};
use crosvm_macos::virtio::vsock::{
    process_tx_queue, tx_queue_step, virtio_vsock_hdr, HostRead, HostWrite, PortPair, RwStep,
    RxStep as PacketStep, TxAction, TxQueueEvent, TxQueueStep, Vsock, VsockConfig,
    VsockError, Worker, WorkerEvent, WorkerStep, DEFAULT_BUF_ALLOC, VIRTIO_VSOCK_OP_CREDIT_UPDATE,
    VIRTIO_VSOCK_OP_REQUEST, VIRTIO_VSOCK_OP_RESPONSE, VIRTIO_VSOCK_OP_RST, VIRTIO_VSOCK_OP_RW,
};
use crosvm_macos::vmnet::{
    vmnet_start_interface_sync, MacAddress, StartOutcome, TapError, TapSystemError, TapTCommon, VmnetTap,
    VMNET_SUCCESS,
};
use crosvm_macos::words::{from_le16, from_le32, from_le64, to_le16, to_le32, to_le64};
use mesa3d_util::{AsRawDescriptor, DescriptorType, MesaHandle, OwnedDescriptor, SharedMemory};

const E: Error = Error { number: 9 };

fn packet(op: u16) -> virtio_vsock_hdr {
    virtio_vsock_hdr {
        src_cid: 3,
        dst_cid: 2,
        src_port: 1000,
        dst_port: 80,
        len: 0,
        type_: 1,
        op,
        flags: 0,
        buf_alloc: 5000,
        fwd_cnt: 0,
    }
}

#[test]
fn packet_headers() {
    let hdr = packet(VIRTIO_VSOCK_OP_REQUEST);
    let bytes = hdr.as_bytes();
    assert_eq!(bytes.len(), 44);
    assert_eq!(bytes[0..8], [3, 0, 0, 0, 0, 0, 0, 0]);
    assert_eq!(bytes[16..20], [0xe8, 3, 0, 0]);
    assert_eq!(bytes[28..32], [1, 0, 1, 0]);
    assert_eq!(virtio_vsock_hdr::read_from(&bytes), Some(hdr));
    assert_eq!(virtio_vsock_hdr::read_from(&bytes[..43]), None);
}

#[test]
fn packets_are_told_apart() {
    let hdr = packet(VIRTIO_VSOCK_OP_REQUEST);
    assert_eq!(Worker::process_tx_packet(44, Some(hdr)), TxAction::Request(hdr));
    assert_eq!(Worker::process_tx_packet(43, Some(hdr)), TxAction::Skip);
    let data = packet(VIRTIO_VSOCK_OP_RW);
    assert_eq!(Worker::process_tx_packet(50, Some(data)), TxAction::Data(data, 6));
    let rst = packet(VIRTIO_VSOCK_OP_RST);
    assert_eq!(Worker::process_tx_packet(44, Some(rst)), TxAction::Shutdown(rst));
    assert_eq!(Worker::process_tx_packet(44, Some(packet(40))), TxAction::Unknown(40));
}

#[test]
fn connections_come_and_go() {
    let mut worker = Worker::new(3);
    let pair = PortPair { host: 80, guest: 1000 };
    assert_eq!(pair.label(), "host:80<->guest:1000");
    let refused = worker.handle_op_request(&packet(VIRTIO_VSOCK_OP_REQUEST), false);
    assert_eq!(refused.op, VIRTIO_VSOCK_OP_RST);
    assert!(worker.connection(pair).is_none());
    let reply = worker.handle_op_request(&packet(VIRTIO_VSOCK_OP_REQUEST), true);
    assert_eq!(reply.op, VIRTIO_VSOCK_OP_RESPONSE);
    assert_eq!((reply.src_cid, reply.dst_cid), (2, 3));
    assert_eq!((reply.src_port, reply.dst_port), (80, 1000));
    assert_eq!(reply.buf_alloc, DEFAULT_BUF_ALLOC);
    let conn = worker.connection(pair).unwrap();
    assert_eq!(conn.peer_free_space(), 5000);
    assert_eq!(worker.port_pairs(), vec![pair]);
    let reply = worker.handle_op_shutdown(&packet(4));
    assert_eq!(reply.op, VIRTIO_VSOCK_OP_RST);
    assert!(worker.connection(pair).is_none());
}

#[test]
fn data_is_written_and_credit_is_told() {
    let mut worker = Worker::new(3);
    let hdr = packet(VIRTIO_VSOCK_OP_RW);
    worker.handle_op_request(&packet(VIRTIO_VSOCK_OP_REQUEST), true);
    let threshold: u32 = DEFAULT_BUF_ALLOC - (0.1 * DEFAULT_BUF_ALLOC as f64) as u32;
    assert_eq!(threshold, 117_965);
    let first = threshold as usize;
    assert_eq!(worker.handle_op_rw(&hdr, first), RwStep::Write(0));
    assert_eq!(
        worker.rw_written(&hdr, 0, first, HostWrite::WouldBlock),
        RwStep::Wait(0)
    );
    assert_eq!(
        worker.rw_written(&hdr, 0, first, HostWrite::Written(first)),
        RwStep::Done(None)
    );
    assert_eq!(worker.handle_op_rw(&hdr, 1), RwStep::Write(0));
    match worker.rw_written(&hdr, 0, 1, HostWrite::Written(1)) {
        RwStep::Done(Some(update)) => {
            assert_eq!(update.op, VIRTIO_VSOCK_OP_CREDIT_UPDATE);
            assert_eq!(update.fwd_cnt, threshold + 1);
        }
        other => panic!("{:?}", other),
    }
}

#[test]
fn host_data_uses_the_guests_room() {
    let mut worker = Worker::new(3);
    let pair = PortPair { host: 80, guest: 1000 };
    worker.handle_op_request(&packet(VIRTIO_VSOCK_OP_REQUEST), true);
    let sent = worker.host_read(pair, HostRead::Data(100)).unwrap();
    assert_eq!((sent.op, sent.len), (VIRTIO_VSOCK_OP_RW, 100));
    assert_eq!(worker.connection(pair).unwrap().peer_free_space(), 4900);
    let mut update = packet(VIRTIO_VSOCK_OP_CREDIT_UPDATE);
    update.fwd_cnt = 100;
    worker.handle_op_credit_update(&update);
    assert_eq!(worker.connection(pair).unwrap().peer_free_space(), 5000);
    assert!(worker.handle_op_credit_request(&packet(7)).is_some());
    assert!(worker.host_read(pair, HostRead::WouldBlock).is_none());
}

#[test]
fn vsock_device() {
    let mut device = Vsock::new(7, 1 << 32);
    assert_eq!(device.get_config().guest_cid, 7);
    assert_eq!(device.features(), 1 << 32);
    device.ack_features(4);
    device.ack_features(1 << 32);
    assert_eq!(device.acked_features, (1 << 32) | 4);
    assert_eq!(device.queue_max_sizes(), vec![256, 256, 256]);
    let mut data = [0xffu8; 10];
    device.read_config(0, &mut data);
    assert_eq!(data[0..8], [7, 0, 0, 0, 0, 0, 0, 0]);
    assert!(device.activate(3).is_ok());
    assert_eq!(
        device.activate(2).err(),
        Some(VsockError::WrongQueueCount { expected: 3, got: 2 })
    );
    assert_eq!(VsockConfig::new(5).cid, 5);
    assert_eq!(
        crosvm_macos::virtio::vsock::worker_step(WorkerEvent::Kill),
        WorkerStep::Stop
    );
    let step = crosvm_macos::virtio::vsock::worker_step;
    assert_eq!(step(WorkerEvent::WaitFailed), WorkerStep::Stop);
    assert_eq!(step(WorkerEvent::TxQueue { cleared: true }), WorkerStep::ProcessTx);
    assert_eq!(step(WorkerEvent::TxQueue { cleared: false }), WorkerStep::Stop);
    assert_eq!(step(WorkerEvent::AllHandled), WorkerStep::PollHost);
}

#[test]
fn frames_are_received() {
    let (mut rx, step) = process_rx();
    assert_eq!(step, RxStep::Peek);
    assert_eq!(rx.peeked(true), RxStep::WriteFrame);
    assert_eq!(rx.written(FrameWrite::Written(60)), RxStep::ReturnUsed);
    assert_eq!(
        rx.written(FrameWrite::WouldBlock),
        RxStep::Finish { interrupt: true, result: Ok(()) }
    );
    assert_eq!(
        rx.written(FrameWrite::Failed(E)),
        RxStep::Finish { interrupt: false, result: Err(NetError::WriteBuffer(E)) }
    );
    let (rx, _) = process_mrg_rx();
    assert_eq!(
        rx.peeked(false),
        RxStep::Finish { interrupt: false, result: Err(NetError::RxDescriptorsExhausted) }
    );
}

#[test]
fn each_frame_takes_a_buffer() {
    let mut writes = vec![
        FrameWrite::WouldBlock,
        FrameWrite::Written(60),
        FrameWrite::Written(0),
        FrameWrite::Written(40),
    ];
    let mut used = 0;
    let (mut rx, mut step) = process_rx();
    let end = loop {
        step = match step {
            RxStep::Peek => rx.peeked(used < 4),
            RxStep::WriteFrame => rx.written(writes.pop().unwrap()),
            RxStep::ReturnUsed => {
                used += 1;
                rx.returned()
            }
            RxStep::Finish { interrupt, result } => break (interrupt, result),
        };
    };
    assert_eq!(used, 2);
    assert_eq!(end, (true, Ok(())));
    assert!(writes.is_empty());
}

#[test]
fn packets_of_the_guest_are_handled() {
    let (mut packets, mut steps) = (2, Vec::new());
    let mut step = process_tx_queue();
    loop {
        steps.push(step);
        step = tx_queue_step(match step {
            TxQueueStep::Pop => TxQueueEvent::Popped { found: packets > 0 },
            TxQueueStep::Handle => {
                packets -= 1;
                TxQueueEvent::Handled
            }
            TxQueueStep::GiveBack => TxQueueEvent::GivenBack,
            TxQueueStep::Interrupt => TxQueueEvent::Interrupted,
            TxQueueStep::Done => break,
        });
    }
    let packet = [TxQueueStep::Pop, TxQueueStep::Handle, TxQueueStep::GiveBack];
    let end = [TxQueueStep::Pop, TxQueueStep::Interrupt, TxQueueStep::Done];
    assert_eq!(steps, [packet, packet, end].concat());
}

#[test]
fn packets_are_written_to_the_guest() {
    assert_eq!(Worker::write_to_rx_queue(None, 44, 6), PacketStep::DropPacket);
    assert_eq!(Worker::write_to_rx_queue(Some(49), 44, 6), PacketStep::ReturnUnused);
    assert_eq!(Worker::write_to_rx_queue(Some(50), 44, 6), PacketStep::WriteHeader);
    assert_eq!(Worker::rx_header_written(false, 6), PacketStep::ReturnUnused);
    assert_eq!(Worker::rx_header_written(true, 0), PacketStep::Finish);
    assert_eq!(Worker::rx_header_written(true, 6), PacketStep::WritePayload);
    assert_eq!(Worker::rx_payload_written(true), PacketStep::Finish);
    assert_eq!(Worker::rx_payload_written(false), PacketStep::Finish);
}

#[test]
fn frames_are_sent() {
    let mut frames = vec![Err(E), Ok(50), Ok(60)];
    let mut steps = Vec::new();
    let mut step = process_tx();
    loop {
        steps.push(step);
        step = tx_step(match step {
            TxStep::Pop => TxEvent::Popped { found: !frames.is_empty() },
            TxStep::Send => TxEvent::Sent { expected: 60, result: frames.pop().unwrap() },
            TxStep::GiveBack(_) => TxEvent::GivenBack,
            TxStep::Interrupt => TxEvent::Interrupted,
            TxStep::Done => break,
        });
    }
    assert_eq!(
        steps,
        vec![
            TxStep::Pop,
            TxStep::Send,
            TxStep::GiveBack(FrameSent::Whole),
            TxStep::Pop,
            TxStep::Send,
            TxStep::GiveBack(FrameSent::Partly(50)),
            TxStep::Pop,
            TxStep::Send,
            TxStep::GiveBack(FrameSent::Failed(E)),
            TxStep::Pop,
            TxStep::Interrupt,
            TxStep::Done,
        ]
    );
    assert_eq!(tx_step(TxEvent::Popped { found: false }), TxStep::Interrupt);
    assert_eq!(virtio_features_to_tap_offload(u64::MAX), 0);
}

fn started() -> StartOutcome {
    StartOutcome {
        dictionary: true,
        queue: true,
        pipe: Ok((5, 6)),
        interface: true,
        status: VMNET_SUCCESS,
        mac: None,
        mtu: None,
    }
}

#[test]
fn interface_address_is_assigned() {
    let mac = MacAddress::parse(b"0e:00:1A:2b:ff:01").unwrap();
    assert_eq!(mac.addr, [0x0e, 0, 0x1a, 0x2b, 0xff, 1]);
    assert!(MacAddress::parse(b"0e:00:1a:2b:ff").is_none());
    assert!(MacAddress::parse(b"0e:00:1a:2b:ff-01").is_none());
    assert!(MacAddress::parse(b"0e:00:1a:2b:fg:01").is_none());
    let outcome = StartOutcome { mac: Some(mac), mtu: Some(9000), ..started() };
    let tap = VmnetTap::new_shared(outcome).ok().unwrap();
    assert_eq!(tap.mac_address(), mac);
    assert_eq!(tap.mtu(), 9000);
}

#[test]
fn network_interface() {
    let mut tap = VmnetTap::new_shared(started()).ok().unwrap();
    assert_eq!(tap.mtu(), 1500);
    assert_eq!(tap.mac_address().addr, [2, 0, 0, 0, 0, 1]);
    assert_eq!(tap.as_raw_descriptor(), 5);
    assert_eq!(validate_and_configure_tap(&tap, 1), Ok(()));
    tap.read_buf[0] = 7;
    tap.read_buf[1] = 8;
    let mut buf = [0u8; 4];
    assert_eq!(tap.read(VMNET_SUCCESS, 1, 2, &mut buf), Ok(2));
    assert_eq!(buf, [7, 8, 0, 0]);
    assert_eq!(tap.read(VMNET_SUCCESS, 0, 2, &mut buf), Err(TapError::WouldBlock));
    assert_eq!(tap.read(1001, 1, 2, &mut buf), Err(TapError::ReadFailed));
    assert_eq!(tap.write(VMNET_SUCCESS, 60), Ok(60));
    assert_eq!(tap.write(1001, 60), Err(TapError::WriteFailed));
    assert_eq!(tap.into_mq_taps(4).len(), 1);
}

#[test]
fn interface_that_does_not_start() {
    let fail = |outcome| VmnetTap::new_shared(outcome).err();
    assert_eq!(
        fail(StartOutcome { dictionary: false, ..started() }),
        Some(TapError::CreateDictionary)
    );
    assert_eq!(
        fail(StartOutcome { queue: false, ..started() }),
        Some(TapError::CreateQueue)
    );
    assert_eq!(
        fail(StartOutcome { pipe: Err(E), ..started() }),
        Some(TapError::CreatePipe(E))
    );
    assert!(fail(StartOutcome { interface: false, ..started() }).is_some());
    assert_eq!(vmnet_start_interface_sync(true, VMNET_SUCCESS), Ok(()));
    assert_eq!(vmnet_start_interface_sync(true, 1005), Err(TapError::NotStarted(1005)));
    assert_eq!(
        VmnetTap::create_error(TapError::CreateQueue),
        TapSystemError::CreateTap(Error::new(EIO))
    );
}

#[test]
fn file_system_events() {
    let (monitor, first) = FsEventsMonitor::start(b"/share");
    assert_eq!(first, FsNext::Do(FsStage::Pipe));
    let mut next = first;
    let mut stages = Vec::new();
    while let FsNext::Do(stage) = next {
        stages.push(stage);
        let step = monitor.after(stage, true);
        next = step.next;
    }
    assert_eq!(next, FsNext::Started);
    assert_eq!(stages.len(), 8);
    let failed = monitor.after(FsStage::CreateArray, false);
    assert_eq!(failed.next, FsNext::Failed(FsEventsError::CreateArray));
    assert!(failed.give_back.contains(&FsResource::PipeRead));
    assert!(failed.give_back.contains(&FsResource::PipeWrite));
    let (broken, _) = FsEventsMonitor::start(b"/sh\0are");
    assert_eq!(
        broken.after(FsStage::SetNonblocking, true).next,
        FsNext::Failed(FsEventsError::PathContainsNul)
    );
    let paths = vec![Some(b"/a".to_vec()), None];
    assert_eq!(fsevents_callback(&paths), vec![b"/a".to_vec(), b"\n".to_vec()]);
    let told = vec![Some(b"/a".to_vec()), None, Some(b"/b c".to_vec())];
    let pipe = String::from_utf8(fsevents_callback(&told).concat()).unwrap();
    assert_eq!(pipe.lines().collect::<Vec<_>>(), vec!["/a", "/b c"]);
    assert_eq!(line_step(None), LineStep::Stop);
    assert_eq!(line_step(Some(3)), LineStep::LookUp);
    let mut stale = StaleSet::new();
    stale.mark(Some((1, 2)));
    stale.mark(None);
    assert_eq!(stale.inodes.len(), 1);
    assert!(stale.inodes.contains(&(1, 2)));
}

#[test]
fn changed_files_are_stale() {
    let reads = [
        (Some(2), Some((1, 2))),
        (Some(0), Some((3, 2))),
        (Some(5), None),
        (Some(4), Some((4, 2))),
        (None, None),
        (Some(4), Some((5, 2))),
    ];
    let mut stale = StaleSet::new();
    stale.mark(Some((9, 9)));
    for (line, file) in reads {
        match line_step(line) {
            LineStep::LookUp => stale.mark(file),
            LineStep::Skip => {}
            LineStep::Stop => break,
        }
    }
    assert_eq!(stale.inodes.into_iter().collect::<Vec<_>>(), vec![(1, 2), (4, 2), (9, 9)]);
}

#[test]
fn words_as_bytes() {
    assert_eq!(to_le16(0x0102), [2, 1]);
    assert_eq!(to_le32(0x0102_0304), [4, 3, 2, 1]);
    assert_eq!(to_le64(0x0102_0304_0506_0708), [8, 7, 6, 5, 4, 3, 2, 1]);
    assert_eq!(from_le16(&[0xfe, 0xff]), 0xfffe);
    assert_eq!(from_le32(&[4, 3, 2, 0xff]), 0xff02_0304);
    assert_eq!(from_le64(&[8, 7, 6, 5, 4, 3, 2, 0xff]), 0xff02_0304_0506_0708);
    assert_eq!(from_le64(&to_le64(u64::MAX)), u64::MAX);
}

#[test]
fn messages_are_framed() {
    let payload = vec![9u8; 5];
    let bytes = frame(&payload);
    assert_eq!(bytes, [5, 0, 0, 0, 9, 9, 9, 9, 9]);
    let (mut recv, step) = Recv::first(&bytes[..4]);
    assert_eq!(step, RecvStep::Read(5));
    assert_eq!(recv.more(&bytes[4..8]), RecvStep::Read(1));
    assert_eq!(recv.more(&bytes[8..]), RecvStep::Done);
    assert_eq!(recv.payload, payload);
    assert_eq!(Recv::first(&bytes[..3]).1, RecvStep::Disconnected);
}

fn receive(stream: &mut Vec<u8>) -> Vec<u8> {
    let tube = Tube { socket: 3 };
    let header: Vec<u8> = stream.drain(..tube.recv().unwrap()).collect();
    let (mut recv, mut step) = Recv::first(&header);
    while let RecvStep::Read(n) = step {
        let n = n.min(3).min(stream.len());
        let data: Vec<u8> = stream.drain(..n).collect();
        step = recv.more(&data);
    }
    assert_eq!(step, RecvStep::Done);
    tube.received(recv).unwrap()
}

#[test]
fn messages_arrive_in_order() {
    let tube = Tube { socket: 4 };
    let mut stream = tube.send(Some(b"first".to_vec()), 0).unwrap();
    stream.extend(tube.send(Some(b"second message".to_vec()), 0).unwrap());
    assert_eq!(receive(&mut stream), b"first");
    assert_eq!(stream, frame(&b"second message".to_vec()));
    assert_eq!(receive(&mut stream), b"second message");
    assert!(stream.is_empty());
}

#[test]
fn tubes() {
    let (a, b) = Tube::pair(Ok((3, 4)), Ok(()), Ok(())).unwrap();
    assert_eq!((a.as_raw_descriptor(), b.as_raw_descriptor()), (3, 4));
    assert_eq!(Tube::pair(Err(E), Ok(()), Ok(())), Err(TubeError::Pair(E)));
    assert_eq!(a.try_clone(Err(E), Ok(())), Err(TubeError::Clone(E)));
    assert_eq!(a.try_clone(Ok(5), Err(E)), Err(TubeError::ScmSocket(E)));
    assert_eq!(a.send(Some(vec![1]), 0), Ok(vec![1, 0, 0, 0, 1]));
    assert_eq!(a.send(None, 0), Err(TubeError::Json));
    assert_eq!(a.send(Some(vec![1]), 33), Err(TubeError::SendTooManyFds));
    assert_eq!(a.recv_with_max_fds(254), Err(TubeError::RecvTooManyFds));
    assert!(a.recv().is_ok());
    assert_eq!(a.set_send_timeout(Err(E)), Err(TubeError::SetSendTimeout(E)));
    assert_eq!(a.set_recv_timeout(Err(E)), Err(TubeError::SetRecvTimeout(E)));
    assert!(ProtoTube::pair(Ok((3, 4)), Ok(()), Ok(())).is_ok());
}

#[test]
fn surfaces() {
    let layout = ShmSurface::layout(4, 2);
    assert_eq!(layout.file_len, 4096 + 2 * 32);
    let mut header = layout.header;
    assert_eq!(header.magic.to_le_bytes(), *b"AETH");
    assert_eq!(header.version, 1);
    assert_eq!(header.stride, 16);
    let (surface, writes) = ShmSurface::new(4, 2, false, true, true, true).unwrap();
    let mut file = vec![0u8; 64];
    for (i, write) in writes.iter().enumerate() {
        assert_eq!(write.offset == 0, i == 7);
        file[write.offset..write.offset + 4].copy_from_slice(&write.value.to_le_bytes());
    }
    assert_eq!(file[..4], *b"AETH");
    assert_eq!(file[4..12], [1, 0, 0, 0, 4, 0, 0, 0]);
    let back = surface.framebuffer(&header);
    assert_eq!((back.offset, back.size), (4096 + 32, 32));
    assert_eq!(
        ShmSurface::signal_frame(&mut header),
        vec![HeaderWrite { offset: 28, value: 1 }, HeaderWrite { offset: 24, value: 1 }]
    );
    assert_eq!((header.active_buffer, header.frame_seq), (1, 1));
    assert_eq!(surface.framebuffer(&header).offset, 4096);
    assert_eq!(
        ShmSurface::new(4, 2, false, true, false, true),
        Err(GpuDisplayError::CreateSurface)
    );
}

#[test]
fn images_are_cropped() {
    let src = [1u8, 1, 1, 1, 9, 9, 9, 9, 2, 2, 2, 2, 9, 9, 9, 9, 3, 3, 3, 3, 9, 9, 9, 9];
    let mut dst = [0u8; 8];
    copy_image(1, 2, &src, 8, 3, &mut dst);
    assert_eq!(dst, [1, 1, 1, 1, 2, 2, 2, 2]);
}

#[test]
fn display_imports() {
    let mut display = DisplayShm::new(true, true, true).ok().unwrap();
    assert!(DisplayShm::new(false, true, true).is_err());
    let buffer = DisplayExternalResourceImport::Dmabuf {
        descriptor: 3,
        stride: 16,
        width: 4,
        height: 2,
    };
    assert_eq!(DisplayShm::import_size(buffer, Some(100)), Ok(100));
    assert_eq!(DisplayShm::import_size(buffer, None), Ok(32));
    assert_eq!(
        DisplayShm::import_size(DisplayExternalResourceImport::Other, None),
        Err(ImportError::Unsupported)
    );
    assert_eq!(display.import_resource(1, buffer, 32, Some(0x1000)), Ok(None));
    assert_eq!(display.flip_to(1).unwrap().ptr, 0x1000);
    assert_eq!(display.import_resource(1, buffer, 32, None), Err(ImportError::MapFailed));
    assert_eq!(display.release_import(1).unwrap().ptr, 0x1000);
    assert_eq!(display.flip_to(1), Err(ImportError::NotFound));
    assert_eq!(
        display.create_surface(Some(1), false),
        Err(GpuDisplayError::Unsupported)
    );
    assert!(GpuDisplay::open_stub(true, true, true).is_ok());
}

fn descriptor(size: u64) -> OwnedDescriptor {
    OwnedDescriptor::from(SharedMemory::new("test", size).unwrap())
}

fn size_of(fd: &OwnedDescriptor) -> u32 {
    match fd.determine_type().unwrap() {
        DescriptorType::Memory(size) => size,
        _ => panic!("memory was expected"),
    }
}

#[test]
fn handles_are_cloned() {
    let handle = RutabagaHandle::from(MesaHandle {
        os_handle: descriptor(4096),
        handle_type: 7,
    });
    let clone = handle.try_clone().ok().unwrap();
    let clone = MesaHandle::try_from(clone).ok().unwrap();
    assert_eq!(clone.handle_type, 7);
    assert_eq!(size_of(&clone.os_handle), 4096);
    let original = handle.as_mesa_handle().unwrap();
    assert_ne!(
        clone.os_handle.as_raw_descriptor(),
        original.os_handle.as_raw_descriptor()
    );
    assert!(matches!(
        AhbInfo::try_from(handle),
        Err(HandleError::InvalidMesaHandle)
    ));
}

#[test]
fn buffers_are_cloned() {
    let info = AhbInfo { fds: vec![descriptor(4096), descriptor(8192)], metadata: vec![1, 2] };
    let handle = RutabagaHandle::from(info);
    assert!(handle.as_mesa_handle().is_none());
    let clone = AhbInfo::try_from(handle.try_clone().ok().unwrap()).ok().unwrap();
    assert_eq!(clone.metadata, vec![1, 2]);
    assert_eq!(size_of(&clone.fds[0]), 4096);
    assert_eq!(size_of(&clone.fds[1]), 8192);
    assert!(matches!(
        MesaHandle::try_from(handle),
        Err(HandleError::InvalidMesaHandle)
    ));
    assert!(matches!(RutabagaHandle::cloned(None), Err(HandleError::InvalidMesaHandle)));
    assert!(matches!(add_clone(vec![], None), Err(HandleError::InvalidMesaHandle)));
}

#[test]
fn block_device() {
    assert_eq!(get_seg_max(256), 254);
    assert_eq!(get_seg_max(2), 0);
    assert_eq!(get_seg_max(4096), 1024);
    let disk = DiskOption {
        path: "/d".to_string(),
        read_only: true,
        sparse: false,
        direct: true,
        lock: false,
    };
    let params = disk.open();
    assert_eq!(params.path, "/d");
    assert!(params.is_read_only && params.is_direct && !params.is_overlapped);
    assert_eq!(params.depth, 0);
    let device = BlockAsync { executor_kind: ExecutorKindSys::Kqueue };
    assert_eq!(device.create_executor(), ExecutorKindSys::Kqueue);
}

#[test]
fn devices_without_a_process_of_their_own() {
    assert_eq!(
        block::start_device(block::Options { socket_path: None }),
        Err("vhost-user-backend block not supported on macOS")
    );
    assert_eq!(
        gpu::run_gpu_device(gpu::Options { stub: None }),
        Err("vhost-user GPU backend is not available on macOS")
    );
    assert_eq!(
        net::start_device(net::Options {}),
        Err("vhost-user-net backend not supported on macOS")
    );
    assert_eq!(net::start_queue(), Err("vhost-user-net backend not supported on macOS"));
}

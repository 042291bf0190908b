//! The socket device: streams between the guest and sockets of the host.
//!
//! The guest sends packets with a header that names the two ports and the
//! operation. Each packet also tells the other side the size of the sender's buffer
//! and how much of it was taken, and the guest can ask for that.

use std::collections::HashMap;

use vstd::prelude::*;
use vstd::slice::slice_subrange;
use vstd::std_specs::hash::spec_keys_iter;
use vstd::std_specs::iter::IteratorSpec;
use vstd::string::StringExecFns;

use crate::decimal::{decimal, to_decimal};
use crate::virtio::{config_read, copy_config};
use crate::words::{from_le16, from_le32, from_le64, to_le16, to_le32, to_le64};
use crate::words::{law_word16_round_trip, law_word32_round_trip, law_word64_round_trip};
use crate::words::{le16, le32, le64, word16, word32, word64};

verus! {

broadcast use vstd::std_specs::hash::group_hash_axioms;

/// A stream of bytes; the only type of socket.
pub const TYPE_STREAM_SOCKET: u16 = 1;

/// The host's address.
pub const HOST_CID: u64 = 2;

pub const VIRTIO_VSOCK_OP_INVALID: u16 = 0;

/// Asks for a connection.
pub const VIRTIO_VSOCK_OP_REQUEST: u16 = 1;

/// Grants a connection.
pub const VIRTIO_VSOCK_OP_RESPONSE: u16 = 2;

/// Refuses or breaks a connection.
pub const VIRTIO_VSOCK_OP_RST: u16 = 3;

/// Ends a connection.
pub const VIRTIO_VSOCK_OP_SHUTDOWN: u16 = 4;

/// Carries data.
pub const VIRTIO_VSOCK_OP_RW: u16 = 5;

/// Tells how much was taken from the buffer.
pub const VIRTIO_VSOCK_OP_CREDIT_UPDATE: u16 = 6;

/// Asks for a credit update.
pub const VIRTIO_VSOCK_OP_CREDIT_REQUEST: u16 = 7;

/// The number of descriptors of each queue.
pub const QUEUE_SIZE: u16 = 256;

/// The number of queues: received, sent, events.
pub const QUEUE_COUNT: usize = 3;

/// The size of the buffer that the guest is told.
pub const DEFAULT_BUF_ALLOC: u32 = 131072;

/// How much is read from a socket of the host at once.
pub const READ_BUF_SIZE: usize = 4096;

/// The size of a header.
pub const HEADER_SIZE: usize = 44;

/// The configuration space of the device.
#[allow(non_camel_case_types)]
#[derive(Clone, Copy, Debug, PartialEq, Eq, Structural)]
pub struct virtio_vsock_config {
    /// The address of the guest.
    pub guest_cid: u64,
}

/// The header of a packet.
#[allow(non_camel_case_types)]
#[derive(Clone, Copy, Debug, PartialEq, Eq, Structural)]
pub struct virtio_vsock_hdr {
    pub src_cid: u64,
    pub dst_cid: u64,
    pub src_port: u32,
    pub dst_port: u32,
    /// The length of the data.
    pub len: u32,
    pub type_: u16,
    pub op: u16,
    pub flags: u32,
    /// The size of the sender's buffer.
    pub buf_alloc: u32,
    /// How much the sender has taken from its buffer.
    pub fwd_cnt: u32,
}

/// An event of the device.
#[allow(non_camel_case_types)]
#[derive(Clone, Copy, Debug, PartialEq, Eq, Structural)]
pub struct virtio_vsock_event {
    pub id: u32,
}

impl virtio_vsock_hdr {
    /// The bytes of a header: the fields in their order, each with its lowest
    /// byte first.
    pub open spec fn encoded(self) -> Seq<u8> {
        le64(self.src_cid) + le64(self.dst_cid)
            + le32(self.src_port) + le32(self.dst_port)
            + le32(self.len) + le16(self.type_)
            + le16(self.op) + le32(self.flags)
            + le32(self.buf_alloc) + le32(self.fwd_cnt)
    }

    /// The header that the first bytes of a packet hold.
    pub open spec fn decoded(bytes: Seq<u8>) -> virtio_vsock_hdr {
        virtio_vsock_hdr {
            src_cid: word64(bytes.subrange(0, 8)),
            dst_cid: word64(bytes.subrange(8, 16)),
            src_port: word32(bytes.subrange(16, 20)),
            dst_port: word32(bytes.subrange(20, 24)),
            len: word32(bytes.subrange(24, 28)),
            type_: word16(bytes.subrange(28, 30)),
            op: word16(bytes.subrange(30, 32)),
            flags: word32(bytes.subrange(32, 36)),
            buf_alloc: word32(bytes.subrange(36, 40)),
            fwd_cnt: word32(bytes.subrange(40, 44)),
        }
    }

    /// The header of a packet, if the packet is long enough.
    pub open spec fn of_packet(bytes: Seq<u8>) -> Option<virtio_vsock_hdr> {
        if bytes.len() >= HEADER_SIZE {
            Some(virtio_vsock_hdr::decoded(bytes))
        } else {
            None
        }
    }

    /// The bytes of the header.
    pub fn as_bytes(&self) -> (bytes: Vec<u8>)
        ensures
            bytes@ == self.encoded(),
            bytes@.len() == HEADER_SIZE,
    {
        let mut bytes: Vec<u8> = to_le64(self.src_cid);
        bytes.append(&mut to_le64(self.dst_cid));
        bytes.append(&mut to_le32(self.src_port));
        bytes.append(&mut to_le32(self.dst_port));
        bytes.append(&mut to_le32(self.len));
        bytes.append(&mut to_le16(self.type_));
        bytes.append(&mut to_le16(self.op));
        bytes.append(&mut to_le32(self.flags));
        bytes.append(&mut to_le32(self.buf_alloc));
        bytes.append(&mut to_le32(self.fwd_cnt));
        assert(bytes@ =~= self.encoded());
        bytes
    }

    /// The header of a packet; none if the packet is too short.
    pub fn read_from(bytes: &[u8]) -> (hdr: Option<virtio_vsock_hdr>)
        ensures
            hdr == virtio_vsock_hdr::of_packet(bytes@),
    {
        if bytes.len() < HEADER_SIZE {
            return None;
        }
        Some(
            virtio_vsock_hdr {
                src_cid: from_le64(slice_subrange(bytes, 0, 8)),
                dst_cid: from_le64(slice_subrange(bytes, 8, 16)),
                src_port: from_le32(slice_subrange(bytes, 16, 20)),
                dst_port: from_le32(slice_subrange(bytes, 20, 24)),
                len: from_le32(slice_subrange(bytes, 24, 28)),
                type_: from_le16(slice_subrange(bytes, 28, 30)),
                op: from_le16(slice_subrange(bytes, 30, 32)),
                flags: from_le32(slice_subrange(bytes, 32, 36)),
                buf_alloc: from_le32(slice_subrange(bytes, 36, 40)),
                fwd_cnt: from_le32(slice_subrange(bytes, 40, 44)),
            },
        )
    }
}

/// What is written to a packet is read back from it, whatever follows the
/// header.
pub proof fn law_header_round_trip(hdr: virtio_vsock_hdr, payload: Seq<u8>)
    ensures
        hdr.encoded().len() == HEADER_SIZE,
        virtio_vsock_hdr::decoded(hdr.encoded() + payload) == hdr,
{
    let b = hdr.encoded() + payload;
    lemma_header_bytes(hdr, payload);
    law_word64_round_trip(hdr.src_cid);
    law_word64_round_trip(hdr.dst_cid);
    law_word32_round_trip(hdr.src_port);
    law_word32_round_trip(hdr.dst_port);
    law_word32_round_trip(hdr.len);
    law_word16_round_trip(hdr.type_);
    law_word16_round_trip(hdr.op);
    law_word32_round_trip(hdr.flags);
    law_word32_round_trip(hdr.buf_alloc);
    law_word32_round_trip(hdr.fwd_cnt);
}

/// The bytes of the fields of a header, in front of any others.
proof fn lemma_header_bytes(hdr: virtio_vsock_hdr, payload: Seq<u8>)
    ensures
        hdr.encoded().len() == 44,
        ({
            let b = hdr.encoded() + payload;
            &&& b.subrange(0, 8) == le64(hdr.src_cid)
            &&& b.subrange(8, 16) == le64(hdr.dst_cid)
            &&& b.subrange(16, 20) == le32(hdr.src_port)
            &&& b.subrange(20, 24) == le32(hdr.dst_port)
            &&& b.subrange(24, 28) == le32(hdr.len)
            &&& b.subrange(28, 30) == le16(hdr.type_)
            &&& b.subrange(30, 32) == le16(hdr.op)
            &&& b.subrange(32, 36) == le32(hdr.flags)
            &&& b.subrange(36, 40) == le32(hdr.buf_alloc)
            &&& b.subrange(40, 44) == le32(hdr.fwd_cnt)
        }),
{
    lemma_ten_parts(
        le64(hdr.src_cid),
        le64(hdr.dst_cid),
        le32(hdr.src_port),
        le32(hdr.dst_port),
        le32(hdr.len),
        le16(hdr.type_),
        le16(hdr.op),
        le32(hdr.flags),
        le32(hdr.buf_alloc),
        le32(hdr.fwd_cnt),
        payload,
    );
}

proof fn lemma_ten_parts(
    a: Seq<u8>,
    b: Seq<u8>,
    c: Seq<u8>,
    d: Seq<u8>,
    e: Seq<u8>,
    f: Seq<u8>,
    g: Seq<u8>,
    h: Seq<u8>,
    i: Seq<u8>,
    j: Seq<u8>,
    rest: Seq<u8>,
)
    requires
        a.len() == 8,
        b.len() == 8,
        c.len() == 4,
        d.len() == 4,
        e.len() == 4,
        f.len() == 2,
        g.len() == 2,
        h.len() == 4,
        i.len() == 4,
        j.len() == 4,
    ensures
        ({
            let all = a + b + c + d + e + f + g + h + i + j + rest;
            &&& (a + b + c + d + e + f + g + h + i + j).len() == 44
            &&& all.subrange(0, 8) == a
            &&& all.subrange(8, 16) == b
            &&& all.subrange(16, 20) == c
            &&& all.subrange(20, 24) == d
            &&& all.subrange(24, 28) == e
            &&& all.subrange(28, 30) == f
            &&& all.subrange(30, 32) == g
            &&& all.subrange(32, 36) == h
            &&& all.subrange(36, 40) == i
            &&& all.subrange(40, 44) == j
        }),
{
    let all = a + b + c + d + e + f + g + h + i + j + rest;
    assert(all.subrange(0, 8) =~= a);
    assert(all.subrange(8, 16) =~= b);
    assert(all.subrange(16, 20) =~= c);
    assert(all.subrange(20, 24) =~= d);
    assert(all.subrange(24, 28) =~= e);
    assert(all.subrange(28, 30) =~= f);
    assert(all.subrange(30, 32) =~= g);
    assert(all.subrange(32, 36) =~= h);
    assert(all.subrange(36, 40) =~= i);
    assert(all.subrange(40, 44) =~= j);
}

/// What the command line tells of the device.
#[derive(Clone, Copy, Debug, PartialEq, Eq, Structural)]
pub struct VsockConfig {
    /// The address of the guest.
    pub cid: u64,
}

impl VsockConfig {
    /// A configuration with the given address.
    pub fn new(cid: u64) -> (config: VsockConfig)
        ensures
            config.cid == cid,
    {
        VsockConfig { cid }
    }
}

/// The two ports of a connection.
#[derive(Clone, Copy, Debug, PartialEq, Eq, Structural)]
pub struct PortPair {
    pub host: u32,
    pub guest: u32,
}

/// The key of a connection: the host's port above the guest's.
pub open spec fn pair_key(pair: PortPair) -> u64 {
    (pair.host * 0x1_0000_0000 + pair.guest) as u64
}

impl PortPair {
    /// The pair that a packet of the guest names.
    pub open spec fn named(hdr: virtio_vsock_hdr) -> PortPair {
        PortPair { host: hdr.dst_port, guest: hdr.src_port }
    }

    fn of(hdr: &virtio_vsock_hdr) -> (pair: PortPair)
        ensures
            pair == PortPair::named(*hdr),
    {
        PortPair { host: hdr.dst_port, guest: hdr.src_port }
    }

    fn key(&self) -> (key: u64)
        ensures
            key == pair_key(*self),
    {
        self.host as u64 * 0x1_0000_0000 + self.guest as u64
    }

    fn from_key(key: u64) -> (pair: PortPair)
        ensures
            pair_key(pair) == key,
    {
        PortPair { host: (key / 0x1_0000_0000) as u32, guest: (key % 0x1_0000_0000) as u32 }
    }

    /// The pair as logs show it.
    pub fn label(&self) -> (label: String)
        ensures
            label@ == "host:"@ + decimal(self.host as nat) + "<->guest:"@ + decimal(
                self.guest as nat,
            ),
    {
        let mut label: String = "host:".to_owned();
        label.append(to_decimal(self.host as u64).as_str());
        label.append("<->guest:");
        label.append(to_decimal(self.guest as u64).as_str());
        label
    }
}

/// Different pairs have different keys.
pub proof fn law_pair_keys_differ(a: PortPair, b: PortPair)
    requires
        a != b,
    ensures
        pair_key(a) != pair_key(b),
{
}

/// A connection.
#[derive(Clone, Copy, Debug, PartialEq, Eq, Structural)]
pub struct VsockConnection {
    pub guest_port: u32,
    pub host_port: u32,
    /// The size of our buffer.
    pub buf_alloc: u32,
    /// How much we have received.
    pub recv_cnt: u32,
    /// How much we had received when the guest was last told.
    pub prev_recv_cnt: u32,
    /// The size of the guest's buffer.
    pub peer_buf_alloc: u32,
    /// How much the guest has received.
    pub peer_recv_cnt: u32,
    /// How much we have sent.
    pub tx_cnt: u32,
}

/// The difference of two counters that wrap around.
pub open spec fn wrapped_difference(a: u32, b: u32) -> int {
    if a >= b {
        a - b
    } else {
        a - b + 0x1_0000_0000
    }
}

/// A counter after it advanced.
pub open spec fn advanced(count: u32, n: int) -> u32 {
    ((count + n) % 0x1_0000_0000) as u32
}

/// How much a connection may receive before the guest is told: nine tenths of
/// the buffer.
pub open spec fn credit_limit(buf_alloc: u32) -> int {
    buf_alloc - buf_alloc / 10
}

/// Whether the guest has to be told how much was received.
pub open spec fn credit_due(conn: VsockConnection) -> bool {
    wrapped_difference(conn.recv_cnt, conn.prev_recv_cnt) > credit_limit(conn.buf_alloc)
}

impl VsockConnection {
    /// The room in the guest's buffer.
    pub open spec fn free_space(self) -> int {
        let used = wrapped_difference(self.tx_cnt, self.peer_recv_cnt);
        if used < self.peer_buf_alloc {
            self.peer_buf_alloc - used
        } else {
            0
        }
    }

    /// The room in the guest's buffer: what it holds less what was sent and not
    /// yet received.
    pub fn peer_free_space(&self) -> (n: u32)
        ensures
            n == self.free_space(),
    {
        self.peer_buf_alloc.saturating_sub(self.tx_cnt.wrapping_sub(self.peer_recv_cnt))
    }
}

/// The connections, by the keys of their port pairs.
pub type Connections = Map<u64, VsockConnection>;

/// The header of a packet without data to the guest.
pub open spec fn control_header(
    guest_cid: u64,
    conns: Connections,
    pair: PortPair,
    op: u16,
) -> virtio_vsock_hdr {
    let known = conns.contains_key(pair_key(pair));
    virtio_vsock_hdr {
        src_cid: HOST_CID,
        dst_cid: guest_cid,
        src_port: pair.host,
        dst_port: pair.guest,
        len: 0,
        type_: TYPE_STREAM_SOCKET,
        op,
        flags: 0,
        buf_alloc: if known {
            conns[pair_key(pair)].buf_alloc
        } else {
            DEFAULT_BUF_ALLOC
        },
        fwd_cnt: if known {
            conns[pair_key(pair)].recv_cnt
        } else {
            0
        },
    }
}

/// A connection that the guest has just asked for.
pub open spec fn opened(hdr: virtio_vsock_hdr) -> VsockConnection {
    VsockConnection {
        guest_port: hdr.src_port,
        host_port: hdr.dst_port,
        buf_alloc: DEFAULT_BUF_ALLOC,
        recv_cnt: 0,
        prev_recv_cnt: 0,
        peer_buf_alloc: hdr.buf_alloc,
        peer_recv_cnt: hdr.fwd_cnt,
        tx_cnt: 0,
    }
}

/// A connection after the guest told its credit.
pub open spec fn credited(conn: VsockConnection, hdr: virtio_vsock_hdr) -> VsockConnection {
    VsockConnection { peer_buf_alloc: hdr.buf_alloc, peer_recv_cnt: hdr.fwd_cnt, ..conn }
}

/// A connection after `n` bytes of the guest came in.
pub open spec fn received(conn: VsockConnection, hdr: virtio_vsock_hdr, n: int) -> VsockConnection {
    VsockConnection { recv_cnt: advanced(conn.recv_cnt, n), ..credited(conn, hdr) }
}

/// What a packet of the guest asks for.
#[derive(Clone, Copy, Debug, PartialEq, Eq, Structural)]
pub enum TxAction {
    /// Nothing: the packet is too short, cannot be read, or holds no data.
    Skip,
    /// A connection: [`Worker::handle_op_request`].
    Request(virtio_vsock_hdr),
    /// Data of this length, which is to be read: [`Worker::handle_op_rw`] if any
    /// could be.
    Data(virtio_vsock_hdr, usize),
    /// The end of a connection: [`Worker::handle_op_shutdown`].
    Shutdown(virtio_vsock_hdr),
    /// The guest's credit: [`Worker::handle_op_credit_update`].
    CreditUpdate(virtio_vsock_hdr),
    /// Our credit: [`Worker::handle_op_credit_request`].
    CreditRequest(virtio_vsock_hdr),
    /// An operation that is not known.
    Unknown(u16),
}

/// What a packet of the guest asks for. `available` is its length; the header
/// is missing if it could not be read.
pub open spec fn tx_action(available: usize, hdr: Option<virtio_vsock_hdr>) -> TxAction {
    if available < HEADER_SIZE {
        TxAction::Skip
    } else {
        match hdr {
            None => TxAction::Skip,
            Some(hdr) => if hdr.op == VIRTIO_VSOCK_OP_REQUEST {
                TxAction::Request(hdr)
            } else if hdr.op == VIRTIO_VSOCK_OP_RW {
                if available > HEADER_SIZE {
                    TxAction::Data(hdr, (available - HEADER_SIZE) as usize)
                } else {
                    TxAction::Skip
                }
            } else if hdr.op == VIRTIO_VSOCK_OP_RST || hdr.op == VIRTIO_VSOCK_OP_SHUTDOWN {
                TxAction::Shutdown(hdr)
            } else if hdr.op == VIRTIO_VSOCK_OP_CREDIT_UPDATE {
                TxAction::CreditUpdate(hdr)
            } else if hdr.op == VIRTIO_VSOCK_OP_CREDIT_REQUEST {
                TxAction::CreditRequest(hdr)
            } else {
                TxAction::Unknown(hdr.op)
            },
        }
    }
}

/// How writing to a socket of the host went.
#[derive(Clone, Copy, Debug, PartialEq, Eq, Structural)]
pub enum HostWrite {
    /// This many bytes were taken.
    Written(usize),
    /// The socket is full for now.
    WouldBlock,
    /// The socket is broken.
    Failed,
}

/// The next step of passing data to the host.
#[derive(Clone, Copy, Debug, PartialEq, Eq)]
pub enum RwStep {
    /// Write the data from this offset on and report the result to
    /// [`Worker::rw_written`], with this offset.
    Write(usize),
    /// Wait a moment, then write the data from this offset on.
    Wait(usize),
    /// Send this packet to the guest, if there is one; the data is done with.
    Done(Option<virtio_vsock_hdr>),
}

/// How reading from a socket of the host went.
#[derive(Clone, Copy, Debug, PartialEq, Eq, Structural)]
pub enum HostRead {
    /// This many bytes came, at least one.
    Data(usize),
    /// The socket was closed.
    Closed,
    /// There is nothing for now.
    WouldBlock,
    /// The socket is broken.
    Failed,
}

/// What follows when data of the guest is passed on to `written` of `len` bytes:
/// more is written, or the guest is told how much was received if that is due.
pub open spec fn rw_progress(
    guest_cid: u64,
    conns: Connections,
    hdr: virtio_vsock_hdr,
    written: int,
    len: int,
) -> RwStep {
    let pair = PortPair::named(hdr);
    if written < len {
        RwStep::Write(written as usize)
    } else if conns.contains_key(pair_key(pair)) && credit_due(conns[pair_key(pair)]) {
        RwStep::Done(Some(control_header(guest_cid, conns, pair, VIRTIO_VSOCK_OP_CREDIT_UPDATE)))
    } else {
        RwStep::Done(None)
    }
}

/// The connections when data of the guest is passed on to `written` of `len`
/// bytes: once all is, a credit that is due counts as told.
pub open spec fn rw_progress_conns(
    conns: Connections,
    hdr: virtio_vsock_hdr,
    written: int,
    len: int,
) -> Connections {
    let key = pair_key(PortPair::named(hdr));
    if written >= len && conns.contains_key(key) && credit_due(conns[key]) {
        conns.insert(
            key,
            VsockConnection { prev_recv_cnt: conns[key].recv_cnt, ..conns[key] },
        )
    } else {
        conns
    }
}

/// The connections and the answer once a connection was asked for, and connecting to
/// the host's socket succeeded or not.
pub open spec fn requested(
    guest_cid: u64,
    conns: Connections,
    hdr: virtio_vsock_hdr,
    connected: bool,
) -> (Connections, virtio_vsock_hdr) {
    let pair = PortPair::named(hdr);
    if connected {
        let after = conns.insert(pair_key(pair), opened(hdr));
        (after, control_header(guest_cid, after, pair, VIRTIO_VSOCK_OP_RESPONSE))
    } else {
        (conns, control_header(guest_cid, conns, pair, VIRTIO_VSOCK_OP_RST))
    }
}

/// The connections once `len` bytes of the guest came, and the first step of passing
/// them on.
pub open spec fn data_came(
    guest_cid: u64,
    conns: Connections,
    hdr: virtio_vsock_hdr,
    len: int,
) -> (Connections, RwStep) {
    let pair = PortPair::named(hdr);
    let key = pair_key(pair);
    if conns.contains_key(key) {
        (conns.insert(key, received(conns[key], hdr, len)), RwStep::Write(0))
    } else {
        (conns, RwStep::Done(Some(control_header(guest_cid, conns, pair, VIRTIO_VSOCK_OP_RST))))
    }
}

/// The connections once the bytes from `written` on were handed to the host's socket,
/// and the step that follows.
pub open spec fn data_passed(
    guest_cid: u64,
    conns: Connections,
    hdr: virtio_vsock_hdr,
    written: int,
    len: int,
    result: HostWrite,
) -> (Connections, RwStep) {
    let pair = PortPair::named(hdr);
    match result {
        HostWrite::Written(n) => (
            rw_progress_conns(conns, hdr, written + n, len),
            rw_progress(guest_cid, conns, hdr, written + n, len),
        ),
        HostWrite::WouldBlock => (conns, RwStep::Wait(written as usize)),
        HostWrite::Failed => {
            let after = conns.remove(pair_key(pair));
            (
                after,
                RwStep::Done(Some(control_header(guest_cid, after, pair, VIRTIO_VSOCK_OP_RST))),
            )
        },
    }
}

/// The connections and the answer once the guest ended a connection.
pub open spec fn shut_down(guest_cid: u64, conns: Connections, hdr: virtio_vsock_hdr) -> (
    Connections,
    virtio_vsock_hdr,
) {
    let pair = PortPair::named(hdr);
    let after = conns.remove(pair_key(pair));
    (after, control_header(guest_cid, after, pair, VIRTIO_VSOCK_OP_RST))
}

/// The connections once the guest told its credit.
pub open spec fn credit_recorded(conns: Connections, hdr: virtio_vsock_hdr) -> Connections {
    let key = pair_key(PortPair::named(hdr));
    if conns.contains_key(key) {
        conns.insert(key, credited(conns[key], hdr))
    } else {
        conns
    }
}

/// The packet that tells our credit, if there is such a connection.
pub open spec fn credit_told(guest_cid: u64, conns: Connections, pair: PortPair) -> Option<
    virtio_vsock_hdr,
> {
    if conns.contains_key(pair_key(pair)) {
        Some(control_header(guest_cid, conns, pair, VIRTIO_VSOCK_OP_CREDIT_UPDATE))
    } else {
        None
    }
}

/// The connections and the packet for the guest once the host's socket of a connection
/// was read.
pub open spec fn host_gave(
    guest_cid: u64,
    conns: Connections,
    pair: PortPair,
    result: HostRead,
) -> (Connections, Option<virtio_vsock_hdr>) {
    let key = pair_key(pair);
    if !conns.contains_key(key) {
        (conns, None)
    } else {
        match result {
            HostRead::WouldBlock => (conns, None),
            HostRead::Data(n) => (
                conns.insert(
                    key,
                    VsockConnection {
                        tx_cnt: advanced(conns[key].tx_cnt, n as int),
                        ..conns[key]
                    },
                ),
                Some(
                    virtio_vsock_hdr {
                        len: n as u32,
                        ..control_header(guest_cid, conns, pair, VIRTIO_VSOCK_OP_RW)
                    },
                ),
            ),
            _ => {
                let after = conns.remove(key);
                (after, Some(control_header(guest_cid, after, pair, VIRTIO_VSOCK_OP_RST)))
            },
        }
    }
}

/// What is done with a packet to the guest.
#[derive(Clone, Copy, Debug, PartialEq, Eq, Structural)]
pub enum RxStep {
    /// The queue is empty: the packet is dropped.
    DropPacket,
    /// The descriptor is returned unused; the guest is not interrupted.
    ReturnUnused,
    /// The header is written to the descriptor.
    WriteHeader,
    /// The data is written to the descriptor.
    WritePayload,
    /// The descriptor is returned and the guest interrupted.
    Finish,
}

/// What is done first with a packet to the guest.
pub open spec fn rx_first(available: Option<usize>, hdr_len: usize, payload_len: usize) -> RxStep {
    match available {
        None => RxStep::DropPacket,
        Some(room) => if room < hdr_len + payload_len {
            RxStep::ReturnUnused
        } else {
            RxStep::WriteHeader
        },
    }
}

/// What follows writing the header.
pub open spec fn rx_after_header(written: bool, payload_len: usize) -> RxStep {
    if !written {
        RxStep::ReturnUnused
    } else if payload_len > 0 {
        RxStep::WritePayload
    } else {
        RxStep::Finish
    }
}

/// What follows writing the data.
pub open spec fn rx_after_payload(written: bool) -> RxStep {
    RxStep::Finish
}

/// The steps from `step` on, where writing the header and the data goes as
/// `header` and `payload` say.
pub open spec fn rx_run(step: RxStep, payload_len: usize, header: bool, payload: bool) -> Seq<
    RxStep,
>
    decreases
            (match step {
                RxStep::WriteHeader => 2int,
                RxStep::WritePayload => 1,
                _ => 0,
            }),
{
    match step {
        RxStep::WriteHeader => seq![step] + rx_run(
            rx_after_header(header, payload_len),
            payload_len,
            header,
            payload,
        ),
        RxStep::WritePayload => seq![step] + rx_run(
            rx_after_payload(payload),
            payload_len,
            header,
            payload,
        ),
        _ => seq![step],
    }
}

/// A packet to the guest takes one descriptor, if there is one: nothing is written
/// where header and data do not fit, the data follows the header where there is
/// any, and the guest is interrupted exactly if the header was written, whether or
/// not the data was.
pub proof fn law_packet_is_written(
    available: Option<usize>,
    hdr_len: usize,
    payload_len: usize,
    header: bool,
    payload: bool,
)
    ensures
        rx_run(rx_first(available, hdr_len, payload_len), payload_len, header, payload) == (
        match available {
            None => seq![RxStep::DropPacket],
            Some(room) => if room < hdr_len + payload_len {
                seq![RxStep::ReturnUnused]
            } else if !header {
                seq![RxStep::WriteHeader, RxStep::ReturnUnused]
            } else if payload_len == 0 {
                seq![RxStep::WriteHeader, RxStep::Finish]
            } else {
                seq![RxStep::WriteHeader, RxStep::WritePayload, RxStep::Finish]
            },
        }),
{
    reveal_with_fuel(rx_run, 3);
}

/// The directory of the host's sockets for a guest.
pub open spec fn socket_dir_of(guest_cid: u64) -> Seq<char> {
    "/tmp/aetheria-vsock-"@ + decimal(guest_cid as nat)
}

/// The socket of a host port for a guest.
pub open spec fn socket_path_of(guest_cid: u64, host_port: u32) -> Seq<char> {
    socket_dir_of(guest_cid) + "/port-"@ + decimal(host_port as nat)
}

/// The device's worker: the connections of a guest.
pub struct Worker {
    /// The address of the guest.
    pub guest_cid: u64,
    /// The connections, by the keys of their port pairs.
    pub connections: HashMap<u64, VsockConnection>,
}

impl Worker {
    /// A worker without connections.
    pub fn new(guest_cid: u64) -> (worker: Worker)
        ensures
            worker.guest_cid == guest_cid,
            worker.connections@ == Map::<u64, VsockConnection>::empty(),
    {
        Worker { guest_cid, connections: HashMap::new() }
    }

    /// The directory of the host's sockets.
    pub fn socket_dir(&self) -> (path: String)
        ensures
            path@ == socket_dir_of(self.guest_cid),
    {
        let mut path: String = "/tmp/aetheria-vsock-".to_owned();
        path.append(to_decimal(self.guest_cid).as_str());
        path
    }

    /// The socket of a host port.
    pub fn socket_path(&self, host_port: u32) -> (path: String)
        ensures
            path@ == socket_path_of(self.guest_cid, host_port),
    {
        let mut path: String = self.socket_dir();
        path.append("/port-");
        path.append(to_decimal(host_port as u64).as_str());
        path
    }

    /// The connection of a port pair.
    pub fn connection(&self, pair: PortPair) -> (conn: Option<VsockConnection>)
        ensures
            conn == (if self.connections@.contains_key(pair_key(pair)) {
                Some(self.connections@[pair_key(pair)])
            } else {
                None
            }),
    {
        match self.connections.get(&pair.key()) {
            Some(conn) => Some(*conn),
            None => None,
        }
    }

    /// What a packet of the guest asks for.
    pub fn process_tx_packet(available: usize, hdr: Option<virtio_vsock_hdr>) -> (action: TxAction)
        ensures
            action == tx_action(available, hdr),
    {
        if available < HEADER_SIZE {
            return TxAction::Skip;
        }
        let hdr: virtio_vsock_hdr = match hdr {
            Some(hdr) => hdr,
            None => {
                return TxAction::Skip;
            },
        };
        if hdr.op == VIRTIO_VSOCK_OP_REQUEST {
            TxAction::Request(hdr)
        } else if hdr.op == VIRTIO_VSOCK_OP_RW {
            let payload_len: usize = available - HEADER_SIZE;
            if payload_len > 0 {
                TxAction::Data(hdr, payload_len)
            } else {
                TxAction::Skip
            }
        } else if hdr.op == VIRTIO_VSOCK_OP_RST || hdr.op == VIRTIO_VSOCK_OP_SHUTDOWN {
            TxAction::Shutdown(hdr)
        } else if hdr.op == VIRTIO_VSOCK_OP_CREDIT_UPDATE {
            TxAction::CreditUpdate(hdr)
        } else if hdr.op == VIRTIO_VSOCK_OP_CREDIT_REQUEST {
            TxAction::CreditRequest(hdr)
        } else {
            TxAction::Unknown(hdr.op)
        }
    }

    /// Answers a request for a connection, once connecting to the host's socket
    /// was tried.
    pub fn handle_op_request(&mut self, hdr: &virtio_vsock_hdr, connected: bool) -> (reply:
        virtio_vsock_hdr)
        ensures
            final(self).guest_cid == old(self).guest_cid,
            (final(self).connections@, reply) == requested(
                old(self).guest_cid,
                old(self).connections@,
                *hdr,
                connected,
            ),
    {
        let pair: PortPair = PortPair::of(hdr);
        if connected {
            let conn: VsockConnection = VsockConnection {
                guest_port: hdr.src_port,
                host_port: hdr.dst_port,
                buf_alloc: DEFAULT_BUF_ALLOC,
                recv_cnt: 0,
                prev_recv_cnt: 0,
                peer_buf_alloc: hdr.buf_alloc,
                peer_recv_cnt: hdr.fwd_cnt,
                tx_cnt: 0,
            };
            self.connections.insert(pair.key(), conn);
            self.send_response(hdr.src_port, hdr.dst_port, VIRTIO_VSOCK_OP_RESPONSE)
        } else {
            self.send_response(hdr.src_port, hdr.dst_port, VIRTIO_VSOCK_OP_RST)
        }
    }

    /// Starts to pass `len` bytes of the guest to the host. Data without a
    /// connection is refused.
    pub fn handle_op_rw(&mut self, hdr: &virtio_vsock_hdr, len: usize) -> (step: RwStep)
        requires
            len >= 1,
        ensures
            final(self).guest_cid == old(self).guest_cid,
            (final(self).connections@, step) == data_came(
                old(self).guest_cid,
                old(self).connections@,
                *hdr,
                len as int,
            ),
    {
        let pair: PortPair = PortPair::of(hdr);
        match self.connection(pair) {
            Some(conn) => {
                let mut conn: VsockConnection = conn;
                conn.peer_recv_cnt = hdr.fwd_cnt;
                conn.peer_buf_alloc = hdr.buf_alloc;
                let n: u32 = (len as u64 % 0x1_0000_0000) as u32;
                proof {
                    assert((conn.recv_cnt + len) % 0x1_0000_0000 == (conn.recv_cnt + n)
                        % 0x1_0000_0000);
                }
                conn.recv_cnt = conn.recv_cnt.wrapping_add(n);
                self.connections.insert(pair.key(), conn);
                RwStep::Write(0)
            },
            None => RwStep::Done(
                Some(self.send_response(hdr.src_port, hdr.dst_port, VIRTIO_VSOCK_OP_RST)),
            ),
        }
    }

    /// Continues to pass `len` bytes of the guest to the host, after the bytes
    /// from `written` on were handed to the socket. A full socket is tried again;
    /// a broken one ends the connection.
    pub fn rw_written(
        &mut self,
        hdr: &virtio_vsock_hdr,
        written: usize,
        len: usize,
        result: HostWrite,
    ) -> (step: RwStep)
        requires
            written <= len,
            result matches HostWrite::Written(n) ==> n <= len - written,
        ensures
            final(self).guest_cid == old(self).guest_cid,
            (final(self).connections@, step) == data_passed(
                old(self).guest_cid,
                old(self).connections@,
                *hdr,
                written as int,
                len as int,
                result,
            ),
    {
        let pair: PortPair = PortPair::of(hdr);
        match result {
            HostWrite::WouldBlock => RwStep::Wait(written),
            HostWrite::Failed => {
                self.connections.remove(&pair.key());
                RwStep::Done(
                    Some(self.send_response(hdr.src_port, hdr.dst_port, VIRTIO_VSOCK_OP_RST)),
                )
            },
            HostWrite::Written(n) => {
                let written: usize = written + n;
                if written < len {
                    return RwStep::Write(written);
                }
                if let Some(conn) = self.connection(pair) {
                    let mut conn: VsockConnection = conn;
                    let threshold: u32 = conn.buf_alloc / 10;
                    let consumed: u32 = conn.recv_cnt.wrapping_sub(conn.prev_recv_cnt);
                    if consumed > conn.buf_alloc.saturating_sub(threshold) {
                        conn.prev_recv_cnt = conn.recv_cnt;
                        self.connections.insert(pair.key(), conn);
                        return RwStep::Done(self.send_credit_update(pair));
                    }
                }
                RwStep::Done(None)
            },
        }
    }

    /// Ends a connection; the guest is told even if there was none.
    pub fn handle_op_shutdown(&mut self, hdr: &virtio_vsock_hdr) -> (reply: virtio_vsock_hdr)
        ensures
            final(self).guest_cid == old(self).guest_cid,
            (final(self).connections@, reply) == shut_down(
                old(self).guest_cid,
                old(self).connections@,
                *hdr,
            ),
    {
        self.connections.remove(&PortPair::of(hdr).key());
        self.send_response(hdr.src_port, hdr.dst_port, VIRTIO_VSOCK_OP_RST)
    }

    /// Records the guest's credit.
    pub fn handle_op_credit_update(&mut self, hdr: &virtio_vsock_hdr)
        ensures
            final(self).guest_cid == old(self).guest_cid,
            final(self).connections@ == credit_recorded(old(self).connections@, *hdr),
    {
        let pair: PortPair = PortPair::of(hdr);
        if let Some(conn) = self.connection(pair) {
            let mut conn: VsockConnection = conn;
            conn.peer_recv_cnt = hdr.fwd_cnt;
            conn.peer_buf_alloc = hdr.buf_alloc;
            self.connections.insert(pair.key(), conn);
        }
    }

    /// Tells our credit, if there is such a connection.
    pub fn handle_op_credit_request(&self, hdr: &virtio_vsock_hdr) -> (reply: Option<
        virtio_vsock_hdr,
    >)
        ensures
            reply == credit_told(self.guest_cid, self.connections@, PortPair::named(*hdr)),
    {
        self.send_credit_update(PortPair::of(hdr))
    }

    /// A packet without data to the guest.
    pub fn send_response(&self, guest_port: u32, host_port: u32, op: u16) -> (reply:
        virtio_vsock_hdr)
        ensures
            reply == control_header(
                self.guest_cid,
                self.connections@,
                (PortPair { host: host_port, guest: guest_port }),
                op,
            ),
    {
        let pair: PortPair = PortPair { host: host_port, guest: guest_port };
        let mut buf_alloc: u32 = DEFAULT_BUF_ALLOC;
        let mut fwd_cnt: u32 = 0;
        if let Some(conn) = self.connection(pair) {
            buf_alloc = conn.buf_alloc;
            fwd_cnt = conn.recv_cnt;
        }
        virtio_vsock_hdr {
            src_cid: HOST_CID,
            dst_cid: self.guest_cid,
            src_port: host_port,
            dst_port: guest_port,
            len: 0,
            type_: TYPE_STREAM_SOCKET,
            op,
            flags: 0,
            buf_alloc,
            fwd_cnt,
        }
    }

    /// The packet that tells our credit, if there is such a connection.
    pub fn send_credit_update(&self, pair: PortPair) -> (reply: Option<virtio_vsock_hdr>)
        ensures
            reply == credit_told(self.guest_cid, self.connections@, pair),
    {
        if self.connections.contains_key(&pair.key()) {
            Some(self.send_response(pair.guest, pair.host, VIRTIO_VSOCK_OP_CREDIT_UPDATE))
        } else {
            None
        }
    }

    /// Deals with what came from the host's socket of a connection: the header
    /// of the packet for the guest, which carries the data if there is any.
    pub fn host_read(&mut self, pair: PortPair, result: HostRead) -> (packet: Option<
        virtio_vsock_hdr,
    >)
        requires
            result matches HostRead::Data(n) ==> 1 <= n <= READ_BUF_SIZE,
        ensures
            final(self).guest_cid == old(self).guest_cid,
            (final(self).connections@, packet) == host_gave(
                old(self).guest_cid,
                old(self).connections@,
                pair,
                result,
            ),
    {
        let conn: VsockConnection = match self.connection(pair) {
            Some(conn) => conn,
            None => {
                return None;
            },
        };
        match result {
            HostRead::WouldBlock => None,
            HostRead::Data(n) => {
                let mut hdr: virtio_vsock_hdr = self.send_response(
                    pair.guest,
                    pair.host,
                    VIRTIO_VSOCK_OP_RW,
                );
                hdr.len = n as u32;
                let mut conn: VsockConnection = conn;
                conn.tx_cnt = conn.tx_cnt.wrapping_add(n as u32);
                self.connections.insert(pair.key(), conn);
                Some(hdr)
            },
            _ => {
                self.connections.remove(&pair.key());
                Some(self.send_response(pair.guest, pair.host, VIRTIO_VSOCK_OP_RST))
            },
        }
    }

    /// What is done first with a packet to the guest: `available` is the room in
    /// the next descriptor, if there is one.
    pub fn write_to_rx_queue(available: Option<usize>, hdr_len: usize, payload_len: usize) -> (step:
        RxStep)
        requires
            hdr_len + payload_len <= usize::MAX,
        ensures
            step == rx_first(available, hdr_len, payload_len),
    {
        match available {
            None => RxStep::DropPacket,
            Some(room) => {
                let needed: usize = hdr_len + payload_len;
                if room < needed {
                    RxStep::ReturnUnused
                } else {
                    RxStep::WriteHeader
                }
            },
        }
    }

    /// What is done once the header was written, or could not be.
    pub fn rx_header_written(written: bool, payload_len: usize) -> (step: RxStep)
        ensures
            step == rx_after_header(written, payload_len),
    {
        if !written {
            RxStep::ReturnUnused
        } else if payload_len > 0 {
            RxStep::WritePayload
        } else {
            RxStep::Finish
        }
    }

    /// What is done once the data was written, or could not be: the guest gets
    /// the descriptor in either case.
    pub fn rx_payload_written(written: bool) -> (step: RxStep)
        ensures
            step == rx_after_payload(written),
    {
        RxStep::Finish
    }

    /// The port pairs of all connections, each once, in no particular order.
    pub fn port_pairs(&self) -> (pairs: Vec<PortPair>)
        ensures
            forall|pair: PortPair| #[trigger]
                pairs@.contains(pair) <==> self.connections@.contains_key(pair_key(pair)),
            pairs@.no_duplicates(),
    {
        let mut pairs: Vec<PortPair> = Vec::new();
        let ghost all = spec_keys_iter(&self.connections).remaining().unref();
        for key in keys: self.connections.keys()
            invariant
                all == keys.seq().unref(),
                keys.seq().no_duplicates(),
                pairs@.len() == keys.index(),
                forall|i: int| 0 <= i < pairs@.len() ==> pair_key(#[trigger] pairs@[i]) == all[i],
        {
            let ghost n = keys.index();
            assert(all[n] == *key);
            pairs.push(PortPair::from_key(*key));
        }
        proof {
            assert(pairs@.len() == all.len());
            assert forall|pair: PortPair| #[trigger]
                pairs@.contains(pair) <==> self.connections@.contains_key(pair_key(pair)) by {
                assert(self.connections@.contains_key(pair_key(pair)) <==> all.to_set().contains(
                    pair_key(pair),
                ));
                if pairs@.contains(pair) {
                    let i = choose|i: int| 0 <= i < pairs@.len() && pairs@[i] == pair;
                    assert(all[i] == pair_key(pair));
                }
                if all.contains(pair_key(pair)) {
                    let i = choose|i: int| 0 <= i < all.len() && all[i] == pair_key(pair);
                    assert(pair_key(pairs@[i]) == pair_key(pair));
                    if pairs@[i] != pair {
                        law_pair_keys_differ(pairs@[i], pair);
                    }
                }
            }
            assert forall|i: int, j: int|
                0 <= i < pairs@.len() && 0 <= j < pairs@.len() && i != j implies pairs@[i]
                != pairs@[j] by {
                assert(pair_key(pairs@[i]) == all[i] && pair_key(pairs@[j]) == all[j]);
            }
        }
        pairs
    }
}

/// What happens to the worker.
#[derive(Clone, Copy, Debug, PartialEq, Eq, Structural)]
pub enum WorkerEvent {
    /// Waiting failed.
    WaitFailed,
    /// The guest sent packets; whether the event could be cleared.
    TxQueue { cleared: bool },
    /// The worker is to stop.
    Kill,
    /// All that woke the worker, if anything did, was dealt with.
    AllHandled,
}

/// What the worker does on an event.
#[derive(Clone, Copy, Debug, PartialEq, Eq, Structural)]
pub enum WorkerStep {
    /// Deal with the packets of the guest: [`process_tx_queue`].
    ProcessTx,
    /// Read from the sockets of the host, then wait again.
    PollHost,
    /// Stop.
    Stop,
}

/// What the worker does on an event.
pub open spec fn worker_next(event: WorkerEvent) -> WorkerStep {
    match event {
        WorkerEvent::WaitFailed => WorkerStep::Stop,
        WorkerEvent::TxQueue { cleared } => if cleared {
            WorkerStep::ProcessTx
        } else {
            WorkerStep::Stop
        },
        WorkerEvent::Kill => WorkerStep::Stop,
        WorkerEvent::AllHandled => WorkerStep::PollHost,
    }
}

/// What the worker does on an event.
pub fn worker_step(event: WorkerEvent) -> (step: WorkerStep)
    ensures
        step == worker_next(event),
{
    match event {
        WorkerEvent::WaitFailed => WorkerStep::Stop,
        WorkerEvent::TxQueue { cleared } => if cleared {
            WorkerStep::ProcessTx
        } else {
            WorkerStep::Stop
        },
        WorkerEvent::Kill => WorkerStep::Stop,
        WorkerEvent::AllHandled => WorkerStep::PollHost,
    }
}

/// What happened while the packets of the guest are dealt with.
#[derive(Clone, Copy, Debug, PartialEq, Eq, Structural)]
pub enum TxQueueEvent {
    /// The next packet of the guest was taken, if there is one.
    Popped { found: bool },
    /// The packet was dealt with.
    Handled,
    /// Its buffer was given back.
    GivenBack,
    /// The guest was interrupted.
    Interrupted,
}

/// What is done next while the packets of the guest are dealt with.
#[derive(Clone, Copy, Debug, PartialEq, Eq, Structural)]
pub enum TxQueueStep {
    /// Take the next packet of the guest.
    Pop,
    /// Deal with it: [`Worker::process_tx_packet`].
    Handle,
    /// Give its buffer back to the guest.
    GiveBack,
    /// Interrupt the guest.
    Interrupt,
    /// End.
    Done,
}

/// What follows an event: every buffer is given back, and the guest is interrupted
/// once no packet is left.
pub open spec fn tx_queue_next(event: TxQueueEvent) -> TxQueueStep {
    match event {
        TxQueueEvent::Popped { found } => if found {
            TxQueueStep::Handle
        } else {
            TxQueueStep::Interrupt
        },
        TxQueueEvent::Handled => TxQueueStep::GiveBack,
        TxQueueEvent::GivenBack => TxQueueStep::Pop,
        TxQueueEvent::Interrupted => TxQueueStep::Done,
    }
}

/// The first step of dealing with the packets of the guest.
pub open spec fn tx_queue_first() -> TxQueueStep {
    TxQueueStep::Pop
}

/// Starts to deal with the packets of the guest.
pub fn process_tx_queue() -> (step: TxQueueStep)
    ensures
        step == tx_queue_first(),
{
    TxQueueStep::Pop
}

/// Continues to deal with the packets of the guest.
pub fn tx_queue_step(event: TxQueueEvent) -> (step: TxQueueStep)
    ensures
        step == tx_queue_next(event),
{
    match event {
        TxQueueEvent::Popped { found } => if found {
            TxQueueStep::Handle
        } else {
            TxQueueStep::Interrupt
        },
        TxQueueEvent::Handled => TxQueueStep::GiveBack,
        TxQueueEvent::GivenBack => TxQueueStep::Pop,
        TxQueueEvent::Interrupted => TxQueueStep::Done,
    }
}

/// The steps from `step` on while the queue holds this many packets.
pub open spec fn tx_queue_run(step: TxQueueStep, packets: nat) -> Seq<TxQueueStep>
    decreases
            packets,
            (match step {
                TxQueueStep::GiveBack => 4int,
                TxQueueStep::Pop => 3,
                TxQueueStep::Handle => 2,
                TxQueueStep::Interrupt => 1,
                TxQueueStep::Done => 0,
            }),
{
    match step {
        TxQueueStep::Pop => seq![step] + tx_queue_run(
            tx_queue_next(TxQueueEvent::Popped { found: packets > 0 }),
            packets,
        ),
        TxQueueStep::Handle => if packets > 0 {
            seq![step] + tx_queue_run(tx_queue_next(TxQueueEvent::Handled), (packets - 1) as nat)
        } else {
            seq![step]
        },
        TxQueueStep::GiveBack => seq![step] + tx_queue_run(
            tx_queue_next(TxQueueEvent::GivenBack),
            packets,
        ),
        TxQueueStep::Interrupt => seq![step] + tx_queue_run(
            tx_queue_next(TxQueueEvent::Interrupted),
            packets,
        ),
        TxQueueStep::Done => seq![step],
    }
}

/// What is done with the packets of a queue: each is taken, dealt with and given
/// back, one after the other, then the guest is interrupted.
pub open spec fn tx_queue_all(packets: nat) -> Seq<TxQueueStep>
    decreases packets,
{
    if packets == 0 {
        seq![TxQueueStep::Pop, TxQueueStep::Interrupt, TxQueueStep::Done]
    } else {
        seq![TxQueueStep::Pop, TxQueueStep::Handle, TxQueueStep::GiveBack] + tx_queue_all(
            (packets - 1) as nat,
        )
    }
}

/// All packets of the guest are dealt with: each once, and its buffer is given back
/// once, whatever the packet is; one interrupt follows the last of them, also where
/// there was none.
pub proof fn law_all_packets_are_handled(packets: nat)
    ensures
        tx_queue_run(tx_queue_first(), packets) == tx_queue_all(packets),
    decreases packets,
{
    reveal_with_fuel(tx_queue_run, 4);
    if packets > 0 {
        law_all_packets_are_handled((packets - 1) as nat);
    }
    assert(tx_queue_run(tx_queue_first(), packets) =~= tx_queue_all(packets));
}

/// Why the device could not be activated.
#[derive(Clone, Copy, Debug, PartialEq, Eq, Structural)]
pub enum VsockError {
    /// The guest set up a wrong number of queues.
    WrongQueueCount { expected: usize, got: usize },
}

/// The device.
#[derive(Clone, Copy, Debug, PartialEq, Eq, Structural)]
pub struct Vsock {
    /// The address of the guest.
    pub guest_cid: u64,
    /// The features on offer.
    pub features: u64,
    /// The features that the guest took.
    pub acked_features: u64,
}

/// A device for the guest with the given address.
pub open spec fn new_vsock(guest_cid: u64, base_features: u64) -> Vsock {
    Vsock { guest_cid, features: base_features, acked_features: 0 }
}

/// The bytes of the configuration space.
pub open spec fn config_bytes(device: Vsock) -> Seq<u8> {
    le64(device.guest_cid)
}

/// The sizes of the queues.
pub open spec fn queue_sizes() -> Seq<u16> {
    seq![QUEUE_SIZE, QUEUE_SIZE, QUEUE_SIZE]
}

/// A device once the guest took features.
pub open spec fn features_acked(device: Vsock, value: u64) -> Vsock {
    Vsock { acked_features: device.acked_features | value, ..device }
}

/// Whether the device can be activated with this many queues.
pub open spec fn activation(queues: usize) -> Result<(), VsockError> {
    if queues == QUEUE_COUNT {
        Ok(())
    } else {
        Err(VsockError::WrongQueueCount { expected: QUEUE_COUNT, got: queues })
    }
}

impl Vsock {
    /// A device for the guest with the given address.
    pub fn new(guest_cid: u64, base_features: u64) -> (device: Vsock)
        ensures
            device == new_vsock(guest_cid, base_features),
    {
        Vsock { guest_cid, features: base_features, acked_features: 0 }
    }

    /// The configuration space.
    pub fn get_config(&self) -> (config: virtio_vsock_config)
        ensures
            config.guest_cid == self.guest_cid,
    {
        virtio_vsock_config { guest_cid: self.guest_cid }
    }

    /// Reads the configuration space: the address of the guest, lowest byte
    /// first.
    pub fn read_config(&self, offset: u64, data: &mut [u8])
        ensures
            final(data)@ == config_read(old(data)@, config_bytes(*self), offset),
    {
        let config: virtio_vsock_config = self.get_config();
        let bytes: Vec<u8> = to_le64(config.guest_cid);
        copy_config(data, &bytes, offset);
    }

    /// The sizes of the queues.
    pub fn queue_max_sizes(&self) -> (sizes: Vec<u16>)
        ensures
            sizes@ == queue_sizes(),
    {
        vec![QUEUE_SIZE, QUEUE_SIZE, QUEUE_SIZE]
    }

    /// The features on offer.
    pub fn features(&self) -> (features: u64)
        ensures
            features == self.features,
    {
        self.features
    }

    /// Records features that the guest took.
    pub fn ack_features(&mut self, value: u64)
        ensures
            *final(self) == features_acked(*old(self), value),
    {
        self.acked_features = self.acked_features | value;
    }

    /// Whether the device can be activated with this many queues, and its
    /// worker.
    pub fn activate(&self, queues: usize) -> (r: Result<Worker, VsockError>)
        ensures
            match activation(queues) {
                Ok(_) => r matches Ok(worker) && worker.guest_cid == self.guest_cid
                    && worker.connections@ == Map::<u64, VsockConnection>::empty(),
                Err(e) => r == Err::<Worker, VsockError>(e),
            },
    {
        if queues != QUEUE_COUNT {
            return Err(VsockError::WrongQueueCount { expected: QUEUE_COUNT, got: queues });
        }
        Ok(Worker::new(self.guest_cid))
    }
}

/// Every packet of ours comes from the host, goes to the guest, and goes back
/// between the ports that the guest's packet named.
pub proof fn law_replies_go_back(
    guest_cid: u64,
    conns: Connections,
    hdr: virtio_vsock_hdr,
    op: u16,
)
    ensures
        ({
            let reply = control_header(guest_cid, conns, PortPair::named(hdr), op);
            &&& reply.src_cid == HOST_CID
            &&& reply.dst_cid == guest_cid
            &&& reply.src_port == hdr.dst_port
            &&& reply.dst_port == hdr.src_port
            &&& reply.op == op
            &&& reply.len == 0
        }),
{
}

/// A connection that is opened and shut down leaves the connections as they
/// were, and what is done to one connection does not touch another.
pub proof fn law_shutdown_undoes_request(conns: Connections, hdr: virtio_vsock_hdr, other: PortPair)
    requires
        !conns.contains_key(pair_key(PortPair::named(hdr))),
        other != PortPair::named(hdr),
    ensures
        ({
            let key = pair_key(PortPair::named(hdr));
            let open = conns.insert(key, opened(hdr));
            &&& open.remove(key) == conns
            &&& open.contains_key(pair_key(other)) == conns.contains_key(pair_key(other))
            &&& open[pair_key(other)] == conns[pair_key(other)]
        }),
{
    let key = pair_key(PortPair::named(hdr));
    law_pair_keys_differ(other, PortPair::named(hdr));
    assert(conns.insert(key, opened(hdr)).remove(key) =~= conns);
}

/// When a guest has received all that was sent, its whole buffer is free.
pub proof fn law_full_credit(conn: VsockConnection, hdr: virtio_vsock_hdr)
    requires
        hdr.fwd_cnt == conn.tx_cnt,
    ensures
        credited(conn, hdr).free_space() == hdr.buf_alloc,
{
}

/// Sending uses up room: after `n` bytes the guest's buffer has `n` bytes less
/// room, as long as there was room for them.
pub proof fn law_sending_uses_room(conn: VsockConnection, n: int)
    requires
        0 <= n <= conn.free_space(),
        wrapped_difference(conn.tx_cnt, conn.peer_recv_cnt) <= conn.peer_buf_alloc,
    ensures
        (VsockConnection { tx_cnt: advanced(conn.tx_cnt, n), ..conn }).free_space()
            == conn.free_space() - n,
{
}

/// Once data is passed on, what was received since the guest was last told is
/// within the limit; the guest is told exactly if it was not.
pub proof fn law_credit_is_told(
    guest_cid: u64,
    conns: Connections,
    hdr: virtio_vsock_hdr,
    written: int,
    len: int,
)
    requires
        written >= len,
        conns.contains_key(pair_key(PortPair::named(hdr))),
    ensures
        ({
            let key = pair_key(PortPair::named(hdr));
            let after = rw_progress_conns(conns, hdr, written, len);
            &&& !credit_due(after[key])
            &&& rw_progress(guest_cid, conns, hdr, written, len) == RwStep::Done(None)
                <==> !credit_due(conns[key])
        }),
{
}

/// What a packet of the guest asks for is told by its operation alone, if it has a
/// whole header that can be read: one asks for a connection, five carries what is
/// behind the header, three and four end a connection, six and seven are about credit,
/// and no other number means anything. Where there is no such header, or no data behind
/// it, nothing is asked for. The header is handed on as it is.
pub proof fn law_operation_tells_the_action(available: usize, hdr: Option<virtio_vsock_hdr>)
    ensures
        ({
            let action = tx_action(available, hdr);
            &&& available < 44 || hdr is None ==> action is Skip
            &&& available >= 44 ==> (hdr matches Some(hdr) ==> {
                &&& action is Skip <==> hdr.op == 5 && available == 44
                &&& action is Request <==> hdr.op == 1
                &&& action is Data <==> hdr.op == 5 && available > 44
                &&& action is Shutdown <==> hdr.op == 3 || hdr.op == 4
                &&& action is CreditUpdate <==> hdr.op == 6
                &&& action is CreditRequest <==> hdr.op == 7
                &&& action is Unknown <==> hdr.op == 0 || hdr.op == 2 || hdr.op > 7
                &&& match action {
                    TxAction::Skip => true,
                    TxAction::Request(given) => given == hdr,
                    TxAction::Data(given, len) => given == hdr && 44 + len == available,
                    TxAction::Shutdown(given) => given == hdr,
                    TxAction::CreditUpdate(given) => given == hdr,
                    TxAction::CreditRequest(given) => given == hdr,
                    TxAction::Unknown(op) => op == hdr.op,
                }
            })
        }),
{
}

/// Where each field of a header stands in its bytes.
pub proof fn law_header_layout(hdr: virtio_vsock_hdr)
    ensures
        hdr.encoded().len() == 44,
        word64(hdr.encoded().subrange(0, 8)) == hdr.src_cid,
        word64(hdr.encoded().subrange(8, 16)) == hdr.dst_cid,
        word32(hdr.encoded().subrange(16, 20)) == hdr.src_port,
        word32(hdr.encoded().subrange(20, 24)) == hdr.dst_port,
        word32(hdr.encoded().subrange(24, 28)) == hdr.len,
        word16(hdr.encoded().subrange(28, 30)) == hdr.type_,
        word16(hdr.encoded().subrange(30, 32)) == hdr.op,
        word32(hdr.encoded().subrange(32, 36)) == hdr.flags,
        word32(hdr.encoded().subrange(36, 40)) == hdr.buf_alloc,
        word32(hdr.encoded().subrange(40, 44)) == hdr.fwd_cnt,
{
    lemma_header_bytes(hdr, Seq::empty());
    assert(hdr.encoded() + Seq::empty() =~= hdr.encoded());
    law_word64_round_trip(hdr.src_cid);
    law_word64_round_trip(hdr.dst_cid);
    law_word32_round_trip(hdr.src_port);
    law_word32_round_trip(hdr.dst_port);
    law_word32_round_trip(hdr.len);
    law_word16_round_trip(hdr.type_);
    law_word16_round_trip(hdr.op);
    law_word32_round_trip(hdr.flags);
    law_word32_round_trip(hdr.buf_alloc);
    law_word32_round_trip(hdr.fwd_cnt);
}

/// Whether a packet is one of ours that goes to a port of the guest from a port of the
/// host: from address two to the guest's, between these two ports, of a stream, without
/// flags.
pub open spec fn is_ours(
    packet: virtio_vsock_hdr,
    guest_cid: u64,
    guest_port: u32,
    host_port: u32,
) -> bool {
    &&& packet.src_cid == 2
    &&& packet.dst_cid == guest_cid
    &&& packet.src_port == host_port
    &&& packet.dst_port == guest_port
    &&& packet.type_ == 1
    &&& packet.flags == 0
}

/// Two sets of connections that have the same connection, or neither has one, for all
/// port pairs but one.
pub open spec fn same_elsewhere(a: Connections, b: Connections, guest_port: u32, host_port: u32) -> bool {
    forall|pair: PortPair|
        pair.guest != guest_port || pair.host != host_port ==> a.contains_key(
            #[trigger] pair_key(pair),
        ) == b.contains_key(pair_key(pair)) && a[pair_key(pair)] == b[pair_key(pair)]
}

proof fn lemma_elsewhere(a: Connections, pair: PortPair, conn: VsockConnection)
    ensures
        same_elsewhere(a, a.insert(pair_key(pair), conn), pair.guest, pair.host),
        same_elsewhere(a, a.remove(pair_key(pair)), pair.guest, pair.host),
{
    assert forall|other: PortPair|
        other.guest != pair.guest || other.host != pair.host implies #[trigger] pair_key(other)
        != pair_key(pair) by {
        law_pair_keys_differ(other, pair);
    }
}

/// A connection opens exactly if the host's socket could be connected to: then it is
/// there, with nothing sent or received and the room that the guest told, and the
/// answer is operation two, which offers our whole buffer. Else nothing changes and the
/// answer is operation three. Other connections stay as they are.
pub proof fn law_request_opens(
    guest_cid: u64,
    conns: Connections,
    hdr: virtio_vsock_hdr,
    connected: bool,
)
    ensures
        ({
            let key = pair_key(PortPair { host: hdr.dst_port, guest: hdr.src_port });
            let (after, reply) = requested(guest_cid, conns, hdr, connected);
            &&& is_ours(reply, guest_cid, hdr.src_port, hdr.dst_port)
            &&& reply.len == 0
            &&& connected ==> {
                &&& reply.op == 2 && reply.buf_alloc == 131072 && reply.fwd_cnt == 0
                &&& after.contains_key(key)
                &&& after[key].guest_port == hdr.src_port && after[key].host_port == hdr.dst_port
                &&& after[key].recv_cnt == 0 && after[key].prev_recv_cnt == 0 && after[key].tx_cnt
                    == 0
                &&& after[key].buf_alloc == 131072
                &&& after[key].peer_buf_alloc == hdr.buf_alloc && after[key].peer_recv_cnt
                    == hdr.fwd_cnt
            }
            &&& !connected ==> reply.op == 3 && after == conns
            &&& same_elsewhere(conns, after, hdr.src_port, hdr.dst_port)
        }),
{
    lemma_elsewhere(conns, PortPair::named(hdr), opened(hdr));
}

/// A connection that the guest ends is gone and no other is, and the answer is
/// operation three, also where there was no such connection.
pub proof fn law_shutdown_closes(guest_cid: u64, conns: Connections, hdr: virtio_vsock_hdr)
    ensures
        ({
            let key = pair_key(PortPair { host: hdr.dst_port, guest: hdr.src_port });
            let (after, reply) = shut_down(guest_cid, conns, hdr);
            &&& !after.contains_key(key)
            &&& same_elsewhere(conns, after, hdr.src_port, hdr.dst_port)
            &&& is_ours(reply, guest_cid, hdr.src_port, hdr.dst_port)
            &&& reply.op == 3 && reply.len == 0
        }),
{
    lemma_elsewhere(conns, PortPair::named(hdr), opened(hdr));
}

/// Data that comes for a connection counts as received, modulo the size of the counter,
/// its header tells the guest's room, and it is passed on from its start; nothing else
/// changes. Without a connection it is refused by operation three and nothing changes.
pub proof fn law_data_is_taken(
    guest_cid: u64,
    conns: Connections,
    hdr: virtio_vsock_hdr,
    len: int,
)
    requires
        len >= 1,
    ensures
        ({
            let key = pair_key(PortPair { host: hdr.dst_port, guest: hdr.src_port });
            let (after, step) = data_came(guest_cid, conns, hdr, len);
            &&& conns.contains_key(key) ==> {
                &&& step == RwStep::Write(0)
                &&& after.contains_key(key)
                &&& (after[key].recv_cnt - conns[key].recv_cnt - len) % 0x1_0000_0000 == 0
                &&& after[key].peer_buf_alloc == hdr.buf_alloc && after[key].peer_recv_cnt
                    == hdr.fwd_cnt
                &&& after[key] == (VsockConnection {
                    recv_cnt: after[key].recv_cnt,
                    peer_buf_alloc: after[key].peer_buf_alloc,
                    peer_recv_cnt: after[key].peer_recv_cnt,
                    ..conns[key]
                })
            }
            &&& !conns.contains_key(key) ==> {
                &&& after == conns
                &&& step matches RwStep::Done(Some(reply)) && reply.op == 3 && reply.len == 0
                    && is_ours(reply, guest_cid, hdr.src_port, hdr.dst_port)
            }
            &&& same_elsewhere(conns, after, hdr.src_port, hdr.dst_port)
        }),
{
    let pair = PortPair::named(hdr);
    let key = pair_key(pair);
    if conns.contains_key(key) {
        lemma_elsewhere(conns, pair, received(conns[key], hdr, len));
        let count = conns[key].recv_cnt;
        assert((advanced(count, len) - count - len) % 0x1_0000_0000 == 0) by {
            vstd::arithmetic::div_mod::lemma_fundamental_div_mod(count + len, 0x1_0000_0000);
            let q = (count + len) / 0x1_0000_0000;
            assert(advanced(count, len) - count - len == 0x1_0000_0000 * (-q)) by (nonlinear_arith)
                requires
                    advanced(count, len) == (count + len) % 0x1_0000_0000,
                    count + len == 0x1_0000_0000 * q + (count + len) % 0x1_0000_0000,
            ;
            vstd::arithmetic::div_mod::lemma_mod_multiples_basic(-q, 0x1_0000_0000);
        }
    }
}

/// How many bytes a socket took.
pub open spec fn bytes_taken(results: Seq<HostWrite>) -> int
    decreases results.len(),
{
    if results.len() == 0 {
        0
    } else {
        bytes_taken(results.drop_last()) + match results.last() {
            HostWrite::Written(n) => n as int,
            _ => 0,
        }
    }
}

/// The connections and the next step after `len` bytes of the guest came and the
/// host's socket was written to as `results` say, each time from where the step before
/// says.
pub open spec fn rw_run(
    guest_cid: u64,
    conns: Connections,
    hdr: virtio_vsock_hdr,
    len: int,
    results: Seq<HostWrite>,
) -> (Connections, RwStep)
    decreases results.len(),
{
    if results.len() == 0 {
        data_came(guest_cid, conns, hdr, len)
    } else {
        let (before, step) = rw_run(guest_cid, conns, hdr, len, results.drop_last());
        match step {
            RwStep::Write(from) | RwStep::Wait(from) => data_passed(
                guest_cid,
                before,
                hdr,
                from as int,
                len,
                results.last(),
            ),
            RwStep::Done(_) => (before, step),
        }
    }
}

/// Data of the guest reaches the host whole and in order: each write begins where the
/// bytes that the socket took so far end, a full socket is tried again from there, and
/// all is done with exactly when the socket took everything. Meanwhile the connections
/// stay as they were when the data came.
pub proof fn law_data_reaches_the_host(
    guest_cid: u64,
    conns: Connections,
    hdr: virtio_vsock_hdr,
    len: usize,
    results: Seq<HostWrite>,
)
    requires
        len >= 1,
        conns.contains_key(pair_key(PortPair { host: hdr.dst_port, guest: hdr.src_port })),
        forall|i: int| 0 <= i < results.len() ==> !(#[trigger] results[i] is Failed),
        bytes_taken(results) < len,
    ensures
        ({
            let (after, step) = rw_run(guest_cid, conns, hdr, len as int, results);
            &&& after == data_came(guest_cid, conns, hdr, len as int).0
            &&& results.len() == 0 || !(results.last() is WouldBlock) ==> step == RwStep::Write(
                bytes_taken(results) as usize,
            )
            &&& results.len() > 0 && results.last() is WouldBlock ==> step == RwStep::Wait(
                bytes_taken(results) as usize,
            )
            &&& 0 <= bytes_taken(results)
        }),
    decreases results.len(),
{
    if results.len() > 0 {
        let before = results.drop_last();
        assert forall|i: int| 0 <= i < before.len() implies !(#[trigger] before[i] is Failed) by {
            assert(before[i] == results[i]);
        }
        assert(results[results.len() - 1] == results.last());
        law_data_reaches_the_host(guest_cid, conns, hdr, len, before);
    }
}

/// What the end of passing data on leaves: where the socket took all of it, the guest is
/// told by operation six how much was received exactly if more than nine tenths of our
/// buffer came in since it was last told, and that counts as told; else it is told
/// nothing. Where the socket broke, the connection is gone and the guest is told by
/// operation three. Other connections stay as they are.
pub proof fn law_data_is_done_with(
    guest_cid: u64,
    conns: Connections,
    hdr: virtio_vsock_hdr,
    written: usize,
    len: usize,
    result: HostWrite,
)
    requires
        written < len,
        conns.contains_key(pair_key(PortPair { host: hdr.dst_port, guest: hdr.src_port })),
        result is Failed || result == HostWrite::Written((len - written) as usize),
    ensures
        ({
            let key = pair_key(PortPair { host: hdr.dst_port, guest: hdr.src_port });
            let conn = conns[key];
            let (after, step) = data_passed(
                guest_cid,
                conns,
                hdr,
                written as int,
                len as int,
                result,
            );
            let since = (conn.recv_cnt - conn.prev_recv_cnt) % 0x1_0000_0000;
            let due = since > conn.buf_alloc - conn.buf_alloc / 10;
            &&& step is Done
            &&& result is Failed ==> !after.contains_key(key)
            &&& result is Failed || due ==> {
                &&& step->Done_0 is Some
                &&& is_ours(step->Done_0->0, guest_cid, hdr.src_port, hdr.dst_port)
                &&& (step->Done_0->0).len == 0
            }
            &&& result is Failed ==> (step->Done_0->0).op == 3
            &&& !(result is Failed) && due ==> {
                &&& (step->Done_0->0).op == 6
                &&& (step->Done_0->0).fwd_cnt == conn.recv_cnt
                &&& (step->Done_0->0).buf_alloc == conn.buf_alloc
                &&& after.contains_key(key)
                &&& after[key] == (VsockConnection { prev_recv_cnt: conn.recv_cnt, ..conn })
            }
            &&& !(result is Failed) && !due ==> step == RwStep::Done(None) && after == conns
            &&& same_elsewhere(conns, after, hdr.src_port, hdr.dst_port)
        }),
{
    let pair = PortPair::named(hdr);
    let conn = conns[pair_key(pair)];
    lemma_elsewhere(conns, pair, VsockConnection { prev_recv_cnt: conn.recv_cnt, ..conn });
    assert(wrapped_difference(conn.recv_cnt, conn.prev_recv_cnt) == (conn.recv_cnt
        - conn.prev_recv_cnt) % 0x1_0000_0000);
}

/// The guest's credit is recorded for the connection that it names, and nothing else
/// changes.
pub proof fn law_credit_is_recorded(conns: Connections, hdr: virtio_vsock_hdr)
    ensures
        ({
            let key = pair_key(PortPair { host: hdr.dst_port, guest: hdr.src_port });
            let after = credit_recorded(conns, hdr);
            &&& after.contains_key(key) == conns.contains_key(key)
            &&& conns.contains_key(key) ==> after[key] == (VsockConnection {
                peer_buf_alloc: hdr.buf_alloc,
                peer_recv_cnt: hdr.fwd_cnt,
                ..conns[key]
            })
            &&& !conns.contains_key(key) ==> after == conns
            &&& same_elsewhere(conns, after, hdr.src_port, hdr.dst_port)
        }),
{
    let pair = PortPair::named(hdr);
    lemma_elsewhere(conns, pair, credited(conns[pair_key(pair)], hdr));
}

/// Our credit is told by operation six, with how much of the connection was received,
/// exactly if there is such a connection.
pub proof fn law_credit_is_answered(guest_cid: u64, conns: Connections, pair: PortPair)
    ensures
        match credit_told(guest_cid, conns, pair) {
            Some(packet) => {
                &&& conns.contains_key(pair_key(pair))
                &&& is_ours(packet, guest_cid, pair.guest, pair.host)
                &&& packet.op == 6 && packet.len == 0
                &&& packet.buf_alloc == conns[pair_key(pair)].buf_alloc
                &&& packet.fwd_cnt == conns[pair_key(pair)].recv_cnt
            },
            None => !conns.contains_key(pair_key(pair)),
        },
{
}

/// Data of the host goes to the guest by operation five, with its length, and counts as
/// sent, modulo the size of the counter. A socket that was closed or broke ends the
/// connection, and the guest is told by operation three. Where there is nothing for now,
/// or no such connection, nothing happens. Other connections stay as they are.
pub proof fn law_host_data_goes_to_the_guest(
    guest_cid: u64,
    conns: Connections,
    pair: PortPair,
    result: HostRead,
)
    requires
        result matches HostRead::Data(n) ==> 1 <= n <= 4096,
    ensures
        ({
            let key = pair_key(pair);
            let (after, packet) = host_gave(guest_cid, conns, pair, result);
            &&& same_elsewhere(conns, after, pair.guest, pair.host)
            &&& packet is Some <==> conns.contains_key(key) && !(result is WouldBlock)
            &&& packet is None ==> after == conns
            &&& packet matches Some(packet) ==> {
                &&& is_ours(packet, guest_cid, pair.guest, pair.host)
                &&& packet.op == 5 <==> result is Data
                &&& packet.op == 3 <==> !(result is Data)
                &&& result matches HostRead::Data(n) ==> {
                    &&& packet.len == n
                    &&& packet.buf_alloc == conns[key].buf_alloc && packet.fwd_cnt
                        == conns[key].recv_cnt
                    &&& after.contains_key(key)
                    &&& (after[key].tx_cnt - conns[key].tx_cnt) % 0x1_0000_0000 == n
                    &&& after[key] == (VsockConnection {
                        tx_cnt: after[key].tx_cnt,
                        ..conns[key]
                    })
                }
                &&& !(result is Data) ==> packet.len == 0 && !after.contains_key(key)
            }
        }),
{
    let key = pair_key(pair);
    let n = if let HostRead::Data(n) = result {
        n as int
    } else {
        0
    };
    lemma_elsewhere(
        conns,
        pair,
        VsockConnection { tx_cnt: advanced(conns[key].tx_cnt, n), ..conns[key] },
    );
}

/// Each host port of each guest has a socket of its own, in the directory of the guest.
pub proof fn law_sockets_are_in_their_directory(guest_cid: u64, host_port: u32)
    ensures
        socket_dir_of(guest_cid) == "/tmp/aetheria-vsock-"@ + decimal(guest_cid as nat),
        socket_path_of(guest_cid, host_port).take(socket_dir_of(guest_cid).len() as int)
            == socket_dir_of(guest_cid),
        socket_path_of(guest_cid, host_port).skip(socket_dir_of(guest_cid).len() as int)
            == "/port-"@ + decimal(host_port as nat),
{
    let dir = socket_dir_of(guest_cid);
    let path = socket_path_of(guest_cid, host_port);
    assert(path.take(dir.len() as int) =~= dir);
    assert(path.skip(dir.len() as int) =~= "/port-"@ + decimal(host_port as nat));
}

/// The worker stops exactly if waiting failed, it is told to, or the event of the guest
/// cannot be cleared; it deals with the packets of the guest exactly if it was woken for
/// them, and looks at the host's sockets once all is dealt with.
pub proof fn law_worker_goes_on(event: WorkerEvent)
    ensures
        worker_next(event) is Stop <==> (event is WaitFailed || event is Kill || event
            == WorkerEvent::TxQueue { cleared: false }),
        worker_next(event) is ProcessTx <==> event == (WorkerEvent::TxQueue { cleared: true }),
        worker_next(event) is PollHost <==> event is AllHandled,
{
}

/// The device can be activated with as many queues as it tells sizes of, which are
/// three, each of 256 descriptors, and with no other number of them.
pub proof fn law_activation_takes_all_queues(queues: usize)
    ensures
        queue_sizes().len() == 3,
        forall|i: int| 0 <= i < queue_sizes().len() ==> #[trigger] queue_sizes()[i] == 256,
        activation(queues) is Ok <==> queues == queue_sizes().len(),
        activation(queues) matches Err(VsockError::WrongQueueCount { expected, got }) ==> expected
            == 3 && got == queues,
{
}

/// The guest takes features one by one: what it took it keeps, and it takes nothing
/// that it did not name. Nothing else of the device changes.
pub proof fn law_features_add_up(device: Vsock, guest_cid: u64, base: u64, value: u64, bit: u64)
    requires
        bit < 64,
    ensures
        ({
            let after = features_acked(device, value);
            &&& (after.acked_features >> bit) & 1 == 1 <==> (device.acked_features >> bit) & 1 == 1
                || (value >> bit) & 1 == 1
            &&& after.guest_cid == device.guest_cid && after.features == device.features
        }),
        new_vsock(guest_cid, base).guest_cid == guest_cid,
        new_vsock(guest_cid, base).features == base,
        new_vsock(guest_cid, base).acked_features == 0,
{
    let a = device.acked_features;
    assert(((a | value) >> bit) & 1 == 1 <==> (a >> bit) & 1 == 1 || (value >> bit) & 1 == 1)
        by (bit_vector)
        requires
            bit < 64,
    ;
}

/// The header of a packet is read back whatever data follows it; a packet that is shorter
/// than a header has none.
pub proof fn law_packet_has_its_header(hdr: virtio_vsock_hdr, payload: Seq<u8>, short: Seq<u8>)
    requires
        short.len() < 44,
    ensures
        virtio_vsock_hdr::of_packet(hdr.encoded() + payload) == Some(hdr),
        virtio_vsock_hdr::of_packet(short) is None,
{
    law_header_round_trip(hdr, payload);
}

/// The steps of dealing with the packets of the guest, one by one: packet `i` is taken,
/// dealt with and given back by three steps behind those of the packets before it. Behind
/// the last packet the guest is interrupted once.
pub proof fn law_packet_by_packet(packets: nat, i: int)
    requires
        0 <= i < packets,
    ensures
        ({
            let steps = tx_queue_run(tx_queue_first(), packets);
            &&& steps.len() == 3 * packets + 3
            &&& steps[3 * i] is Pop
            &&& steps[3 * i + 1] is Handle
            &&& steps[3 * i + 2] is GiveBack
            &&& steps[3 * packets as int] is Pop
            &&& steps[3 * packets as int + 1] is Interrupt
            &&& steps[3 * packets as int + 2] is Done
        }),
{
    law_all_packets_are_handled(packets);
    lemma_tx_queue_all(packets, i);
}

proof fn lemma_tx_queue_all(packets: nat, i: int)
    ensures
        ({
            let steps = tx_queue_all(packets);
            let n = packets as int;
            &&& steps.len() == 3 * n + 3
            &&& 0 <= i < n ==> steps[3 * i] is Pop && steps[3 * i + 1] is Handle && steps[3 * i + 2]
                is GiveBack
            &&& steps[3 * n] is Pop
            &&& steps[3 * n + 1] is Interrupt
            &&& steps[3 * n + 2] is Done
        }),
    decreases packets,
{
    if packets > 0 {
        let left = (packets - 1) as nat;
        lemma_tx_queue_all(left, i - 1);
        let steps = tx_queue_all(packets);
        let tail = tx_queue_all(left);
        let n = left as int;
        assert(steps[3 * (n + 1)] == tail[3 * n]);
        assert(steps[3 * (n + 1) + 1] == tail[3 * n + 1]);
        assert(steps[3 * (n + 1) + 2] == tail[3 * n + 2]);
        if 0 < i < packets {
            assert(steps[3 * i] == tail[3 * (i - 1)]);
            assert(steps[3 * i + 1] == tail[3 * (i - 1) + 1]);
            assert(steps[3 * i + 2] == tail[3 * (i - 1) + 2]);
        }
    }
}

/// The guest reads its own address from the configuration space, eight bytes with the
/// lowest first.
pub proof fn law_guest_reads_its_address(device: Vsock, before: Seq<u8>)
    requires
        before.len() == 8,
    ensures
        config_bytes(device).len() == 8,
        word64(config_read(before, config_bytes(device), 0)) == device.guest_cid,
{
    law_word64_round_trip(device.guest_cid);
    assert(config_read(before, config_bytes(device), 0) =~= config_bytes(device));
}

} // verus!

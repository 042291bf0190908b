//! The network interface of the host that backs the network device.

use vstd::prelude::*;

use crate::errno::{Error, EIO, ENOTSUP};

verus! {

/// What the system's network functions return on success.
pub const VMNET_SUCCESS: u32 = 1000;

/// The mode in which the host translates addresses.
pub const VMNET_SHARED_MODE: u64 = 1;

/// The largest packet.
pub const MAX_PACKET_SIZE: usize = 65536;

/// An address on the local network.
#[derive(Clone, Copy, Debug, PartialEq, Eq)]
pub struct MacAddress {
    pub addr: [u8; 6],
}

/// The value of a hexadecimal digit.
pub open spec fn hex_digit(c: u8) -> Option<u8> {
    if 0x30 <= c <= 0x39 {
        Some((c - 0x30) as u8)
    } else if 0x61 <= c <= 0x66 {
        Some((c - 0x61 + 10) as u8)
    } else if 0x41 <= c <= 0x46 {
        Some((c - 0x41 + 10) as u8)
    } else {
        None
    }
}

/// Whether a text is an address: six bytes of two hexadecimal digits each, with
/// colons between them.
pub open spec fn is_mac_text(text: Seq<u8>) -> bool {
    &&& text.len() == 17
    &&& forall|k: int|
        0 <= k < 6 ==> hex_digit(#[trigger] text[3 * k]) is Some && hex_digit(text[3 * k + 1])
            is Some
    &&& forall|k: int| 0 <= k < 5 ==> #[trigger] text[3 * k + 2] == 0x3a
}

/// A byte of the address that a text tells.
pub open spec fn mac_byte(text: Seq<u8>, k: int) -> int {
    16 * hex_digit(text[3 * k])->0 + hex_digit(text[3 * k + 1])->0
}

fn digit_value(c: u8) -> (v: Option<u8>)
    ensures
        v == hex_digit(c),
{
    if 0x30 <= c && c <= 0x39 {
        Some(c - 0x30)
    } else if 0x61 <= c && c <= 0x66 {
        Some(c - 0x61 + 10)
    } else if 0x41 <= c && c <= 0x46 {
        Some(c - 0x41 + 10)
    } else {
        None
    }
}

impl MacAddress {
    /// The address that a text tells, if it is one.
    pub fn parse(text: &[u8]) -> (mac: Option<MacAddress>)
        ensures
            match mac {
                Some(mac) => is_mac_text(text@) && forall|k: int|
                    0 <= k < 6 ==> #[trigger] mac.addr@[k] == mac_byte(text@, k),
                None => !is_mac_text(text@),
            },
    {
        if text.len() != 17 {
            return None;
        }
        let mut addr: [u8; 6] = [0; 6];
        let mut k: usize = 0;
        while k < 6
            invariant
                k <= 6,
                text@.len() == 17,
                forall|j: int|
                    0 <= j < k ==> hex_digit(#[trigger] text@[3 * j]) is Some && hex_digit(
                        text@[3 * j + 1],
                    ) is Some,
                forall|j: int| 0 <= j < k && j < 5 ==> #[trigger] text@[3 * j + 2] == 0x3a,
                forall|j: int| 0 <= j < k ==> #[trigger] addr@[j] == mac_byte(text@, j),
            decreases 6 - k,
        {
            let high: u8 = match digit_value(text[3 * k]) {
                Some(v) => v,
                None => {
                    assert(hex_digit(text@[3 * k as int]) is None);
                    return None;
                },
            };
            let low: u8 = match digit_value(text[3 * k + 1]) {
                Some(v) => v,
                None => {
                    assert(hex_digit(text@[3 * k as int + 1]) is None);
                    return None;
                },
            };
            if k < 5 && text[3 * k + 2] != 0x3a {
                assert(text@[3 * k as int + 2] != 0x3a);
                return None;
            }
            addr[k] = 16 * high + low;
            k += 1;
        }
        Some(MacAddress { addr })
    }
}

/// What can go wrong with an interface.
#[derive(Clone, Copy, Debug, PartialEq, Eq, Structural)]
pub enum TapError {
    /// The description of the interface could not be made.
    CreateDictionary,
    /// The queue for its events could not be made.
    CreateQueue,
    /// The pipe for its events could not be made.
    CreatePipe(Error),
    /// The system refused the interface.
    PermissionDenied,
    /// The interface did not start; it has this status.
    NotStarted(u32),
    /// A packet could not be read.
    ReadFailed,
    /// A packet could not be written.
    WriteFailed,
    /// There is no packet for now.
    WouldBlock,
}

/// What can go wrong with making or cloning an interface, as a system error.
#[derive(Clone, Copy, Debug, PartialEq, Eq, Structural)]
pub enum TapSystemError {
    CreateTap(Error),
    CloneTap(Error),
}

/// What every interface of the host tells.
pub trait TapTCommon {
    /// The largest packet.
    fn mtu(&self) -> u16;

    /// The address on the local network.
    fn mac_address(&self) -> MacAddress;

    /// The address of the host, if it is configured here.
    fn ip_addr(&self) -> [u8; 4];

    /// The mask of the network.
    fn netmask(&self) -> [u8; 4];
}

/// An interface that can back the network device.
pub trait TapT: TapTCommon {

}

/// How an interface came up.
#[derive(Clone, Copy, Debug, PartialEq, Eq)]
pub struct StartOutcome {
    /// Whether the description could be made.
    pub dictionary: bool,
    /// Whether the queue could be made.
    pub queue: bool,
    /// The two ends of the pipe, the one to read first.
    pub pipe: Result<(i32, i32), Error>,
    /// Whether the system gave an interface.
    pub interface: bool,
    /// The status that it reported.
    pub status: u32,
    /// The address that the system assigned to it, if it tells one.
    pub mac: Option<MacAddress>,
    /// Its largest packet, if the system tells it.
    pub mtu: Option<u16>,
}

/// The largest packet of an interface where the system does not tell it.
pub const DEFAULT_MTU: u16 = 1500;

/// Why an interface did not come up, if it did not: what is tried first counts
/// first.
pub open spec fn start_failure(outcome: StartOutcome) -> Option<TapError> {
    if !outcome.dictionary {
        Some(TapError::CreateDictionary)
    } else if !outcome.queue {
        Some(TapError::CreateQueue)
    } else if outcome.pipe is Err {
        Some(TapError::CreatePipe(outcome.pipe->Err_0))
    } else if !outcome.interface {
        Some(TapError::PermissionDenied)
    } else if outcome.status != VMNET_SUCCESS {
        Some(TapError::NotStarted(outcome.status))
    } else {
        None
    }
}

/// Whether the interface started.
pub open spec fn started(interface: bool, status: u32) -> Result<(), TapError> {
    if !interface {
        Err(TapError::PermissionDenied)
    } else if status != VMNET_SUCCESS {
        Err(TapError::NotStarted(status))
    } else {
        Ok(())
    }
}

/// The largest packet and the address of an interface that came up.
pub open spec fn told_by_system(mtu: Option<u16>, mac: Option<Seq<u8>>) -> (u16, Seq<u8>) {
    (
        match mtu {
            Some(mtu) => mtu,
            None => DEFAULT_MTU,
        },
        match mac {
            Some(mac) => mac,
            None => seq![2u8, 0u8, 0u8, 0u8, 0u8, 1u8],
        },
    )
}

/// The end of the pipe that tells of packets, and the other end.
pub open spec fn notify_ends(outcome: StartOutcome) -> (i32, i32) {
    (outcome.pipe->Ok_0.0, outcome.pipe->Ok_0.1)
}

/// What reading a packet leaves in a buffer, and what comes of it.
pub open spec fn packet_read(
    packet: Seq<u8>,
    ret: u32,
    packets: u32,
    size: usize,
    before: Seq<u8>,
) -> (Seq<u8>, Result<usize, TapError>) {
    if ret != VMNET_SUCCESS {
        (before, Err(TapError::ReadFailed))
    } else if packets == 0 || size == 0 {
        (before, Err(TapError::WouldBlock))
    } else {
        let len = if size < before.len() {
            size as int
        } else {
            before.len() as int
        };
        (packet.take(len) + before.skip(len), Ok(len as usize))
    }
}

/// What writing a packet comes to.
pub open spec fn packet_written(ret: u32, len: usize) -> Result<usize, TapError> {
    if ret == VMNET_SUCCESS {
        Ok(len)
    } else {
        Err(TapError::WriteFailed)
    }
}

/// The failure to make an interface, as a system error.
pub open spec fn as_system_error(e: TapError) -> TapSystemError {
    match e {
        TapError::CreatePipe(number) => TapSystemError::CreateTap(number),
        _ => TapSystemError::CreateTap(Error { number: EIO }),
    }
}

/// Whether the interface started: the system gave one, and its status says so.
pub fn vmnet_start_interface_sync(interface: bool, status: u32) -> (r: Result<(), TapError>)
    ensures
        r == started(interface, status),
{
    if !interface {
        return Err(TapError::PermissionDenied);
    }
    if status != VMNET_SUCCESS {
        return Err(TapError::NotStarted(status));
    }
    Ok(())
}

/// An interface of the host.
pub struct VmnetTap {
    /// The end of the pipe that tells of packets.
    pub notify_read: i32,
    /// The other end of that pipe.
    pub notify_write: i32,
    pub mac: MacAddress,
    pub mtu: u16,
    /// Where packets are read to.
    pub read_buf: Vec<u8>,
}

impl VmnetTap {
    /// An interface in shared mode, once bringing it up was tried. Its address and
    /// its largest packet are those that the system tells.
    pub fn new_shared(outcome: StartOutcome) -> (r: Result<VmnetTap, TapError>)
        ensures
            match start_failure(outcome) {
                Some(e) => r == Err::<VmnetTap, TapError>(e),
                None => r matches Ok(tap) && (tap.notify_read, tap.notify_write) == notify_ends(
                    outcome,
                ) && (tap.mtu, tap.mac.addr@)
                    == told_by_system(
                    outcome.mtu,
                    match outcome.mac {
                        Some(mac) => Some(mac.addr@),
                        None => None,
                    },
                ) && tap.read_buf@ == Seq::new(MAX_PACKET_SIZE as nat, |i: int| 0u8),
            },
    {
        if !outcome.dictionary {
            return Err(TapError::CreateDictionary);
        }
        if !outcome.queue {
            return Err(TapError::CreateQueue);
        }
        let (notify_read, notify_write): (i32, i32) = match outcome.pipe {
            Ok(ends) => ends,
            Err(e) => {
                return Err(TapError::CreatePipe(e));
            },
        };
        match vmnet_start_interface_sync(outcome.interface, outcome.status) {
            Ok(_) => {},
            Err(e) => {
                return Err(e);
            },
        }
        let mut read_buf: Vec<u8> = Vec::new();
        read_buf.resize(MAX_PACKET_SIZE, 0);
        assert(read_buf@ =~= Seq::new(MAX_PACKET_SIZE as nat, |i: int| 0u8));
        let mac: MacAddress = match outcome.mac {
            Some(mac) => mac,
            None => MacAddress { addr: [2, 0, 0, 0, 0, 1] },
        };
        let mtu: u16 = match outcome.mtu {
            Some(mtu) => mtu,
            None => DEFAULT_MTU,
        };
        Ok(VmnetTap { notify_read, notify_write, mac, mtu, read_buf })
    }

    /// Hands a packet on that was read to the buffer of the interface: `ret` is
    /// what reading returned, `packets` the number of packets and `size` the
    /// size of the packet. A packet that does not fit is cut off.
    pub fn read(&self, ret: u32, packets: u32, size: usize, buf: &mut [u8]) -> (r: Result<
        usize,
        TapError,
    >)
        requires
            size <= self.read_buf@.len() || old(buf)@.len() <= self.read_buf@.len(),
        ensures
            final(buf)@.len() == old(buf)@.len(),
            (final(buf)@, r) == packet_read(self.read_buf@, ret, packets, size, old(buf)@),
    {
        if ret != VMNET_SUCCESS {
            return Err(TapError::ReadFailed);
        }
        if packets == 0 || size == 0 {
            return Err(TapError::WouldBlock);
        }
        let ghost before = buf@;
        let len: usize = if size < buf.len() {
            size
        } else {
            buf.len()
        };
        let mut i: usize = 0;
        while i < len
            invariant
                i <= len,
                len <= buf@.len(),
                len <= self.read_buf@.len(),
                buf@.len() == before.len(),
                buf@ =~= self.read_buf@.take(i as int) + before.skip(i as int),
            decreases len - i,
        {
            buf[i] = self.read_buf[i];
            i += 1;
        }
        Ok(len)
    }

    /// The result of writing a packet of `len` bytes, given what the system
    /// returned: packets are taken whole.
    pub fn write(&self, ret: u32, len: usize) -> (r: Result<usize, TapError>)
        ensures
            r == packet_written(ret, len),
    {
        if ret != VMNET_SUCCESS {
            return Err(TapError::WriteFailed);
        }
        Ok(len)
    }

    /// The descriptor that tells of packets.
    pub fn as_raw_descriptor(&self) -> (fd: i32)
        ensures
            fd == self.notify_read,
    {
        self.notify_read
    }

    /// The failure to make an interface, as a system error: the error of the
    /// pipe if it is that, else an input/output error.
    pub fn create_error(e: TapError) -> (error: TapSystemError)
        ensures
            error == as_system_error(e),
    {
        match e {
            TapError::CreatePipe(number) => TapSystemError::CreateTap(number),
            _ => TapSystemError::CreateTap(Error::new(EIO)),
        }
    }

    /// The interfaces for several queues: there is only one.
    pub fn into_mq_taps(self, vq_pairs: u16) -> (taps: Vec<VmnetTap>)
        ensures
            taps@ == seq![self],
    {
        let mut taps: Vec<VmnetTap> = Vec::new();
        taps.push(self);
        taps
    }

    /// An interface cannot be cloned.
    pub fn try_clone(&self) -> (r: Result<VmnetTap, TapSystemError>)
        ensures
            r == Err::<VmnetTap, TapSystemError>(
                TapSystemError::CloneTap(Error { number: ENOTSUP }),
            ),
    {
        Err(TapSystemError::CloneTap(Error::new(ENOTSUP)))
    }

    /// An interface cannot be made from a descriptor.
    pub fn from_raw_descriptor(descriptor: i32) -> (r: Result<VmnetTap, TapSystemError>)
        ensures
            r == Err::<VmnetTap, TapSystemError>(
                TapSystemError::CreateTap(Error { number: ENOTSUP }),
            ),
    {
        Err(TapSystemError::CreateTap(Error::new(ENOTSUP)))
    }
}

impl TapTCommon for VmnetTap {
    fn mtu(&self) -> (n: u16)
        ensures
            n == self.mtu,
    {
        self.mtu
    }

    fn mac_address(&self) -> (mac: MacAddress)
        ensures
            mac == self.mac,
    {
        self.mac
    }

    fn ip_addr(&self) -> (ip: [u8; 4])
        ensures
            ip@ == seq![0u8, 0u8, 0u8, 0u8],
    {
        [0, 0, 0, 0]
    }

    fn netmask(&self) -> (mask: [u8; 4])
        ensures
            mask@ == seq![255u8, 255u8, 255u8, 0u8],
    {
        [255, 255, 255, 0]
    }
}

impl TapT for VmnetTap {

}

/// The text of a byte: two hexadecimal digits, the higher one first.
pub open spec fn hex_text(value: u8) -> Seq<u8> {
    let digit = |v: u8|
        if v < 10 {
            (0x30 + v) as u8
        } else {
            (0x61 + v - 10) as u8
        };
    seq![digit(value / 16), digit(value % 16)]
}

/// The text of an address: its six bytes with colons between them.
pub open spec fn mac_text(addr: Seq<u8>) -> Seq<u8> {
    Seq::new(
        17,
        |i: int|
            if i % 3 == 2 {
                0x3au8
            } else {
                hex_text(addr[i / 3])[i % 3]
            },
    )
}

/// An address is read back from its text, and a text of another length, with a character
/// that is no digit, or without its colons is none. Digits may be of either case.
pub proof fn law_address_is_read_back(addr: Seq<u8>, text: Seq<u8>, k: int)
    requires
        addr.len() == 6,
        0 <= k < 6,
    ensures
        is_mac_text(mac_text(addr)),
        mac_byte(mac_text(addr), k) == addr[k],
        text.len() != 17 ==> !is_mac_text(text),
        k < 5 && text[3 * k + 2] != 0x3a ==> !is_mac_text(text),
        hex_digit(text[3 * k]) is None ==> !is_mac_text(text),
        hex_digit(text[3 * k + 1]) is None ==> !is_mac_text(text),
        forall|c: u8| 0x61 <= c <= 0x66 ==> #[trigger] hex_digit(c) == hex_digit((c - 0x20) as u8),
        forall|c: u8| #[trigger] hex_digit(c) is Some <==> 0x30 <= c <= 0x39 || 0x41 <= c <= 0x46 || 0x61
            <= c <= 0x66,
{
    let t = mac_text(addr);
    assert forall|j: int| 0 <= j < 6 implies hex_digit(#[trigger] t[3 * j]) is Some && hex_digit(
        t[3 * j + 1],
    ) is Some && mac_byte(t, j) == addr[j] by {
        assert((3 * j) / 3 == j && (3 * j) % 3 == 0 && (3 * j + 1) / 3 == j && (3 * j + 1) % 3 == 1);
    }
    assert forall|j: int| 0 <= j < 5 implies #[trigger] t[3 * j + 2] == 0x3a by {
        assert((3 * j + 2) % 3 == 2);
    }
    assert(hex_digit(t[3 * k]) is Some);
}

/// An interface comes up exactly if everything it needs could be made and the system gave
/// one that reports success; else the first of these that failed says why.
pub proof fn law_interface_comes_up(outcome: StartOutcome)
    ensures
        ({
            let failure = start_failure(outcome);
            &&& failure is None <==> outcome.dictionary && outcome.queue && outcome.pipe is Ok
                && outcome.interface && outcome.status == 1000
            &&& failure == Some(TapError::CreateDictionary) <==> !outcome.dictionary
            &&& failure == Some(TapError::CreateQueue) <==> outcome.dictionary && !outcome.queue
            &&& failure == Some(TapError::PermissionDenied) <==> outcome.dictionary && outcome.queue
                && outcome.pipe is Ok && !outcome.interface
            &&& outcome.dictionary && outcome.queue ==> (outcome.pipe matches Err(e) ==> failure
                == Some(TapError::CreatePipe(e)))
            &&& outcome.dictionary && outcome.queue && outcome.pipe is Ok ==> failure == (
            match started(outcome.interface, outcome.status) {
                Ok(_) => None,
                Err(e) => Some(e),
            })
            &&& outcome.interface && outcome.status != 1000 ==> started(true, outcome.status)
                == Err::<(), TapError>(TapError::NotStarted(outcome.status))
            &&& started(false, outcome.status) == Err::<(), TapError>(TapError::PermissionDenied)
            &&& outcome.pipe is Ok ==> outcome.pipe == Ok::<(i32, i32), Error>(notify_ends(outcome))
        }),
{
}

/// An interface has the largest packet and the address that the system tells; where it
/// tells none they are 1500 bytes and a local address.
pub proof fn law_interface_parameters(mtu: u16, mac: Seq<u8>)
    ensures
        told_by_system(Some(mtu), Some(mac)) == (mtu, mac),
        told_by_system(None, Some(mac)) == (1500u16, mac),
        told_by_system(Some(mtu), None).0 == mtu,
        told_by_system(None, None).1.len() == 6,
        told_by_system(None, None).1[0] & 3 == 2,
{
    assert(2u8 & 3 == 2) by (bit_vector);
}

/// A packet that came is handed on from its start, as much of it as there is room for;
/// behind it the buffer stays as it was. No packet is no error, and a failed read is one;
/// neither changes the buffer. A packet is written whole or not at all.
pub proof fn law_packets_are_handed_on(
    packet: Seq<u8>,
    ret: u32,
    packets: u32,
    size: usize,
    before: Seq<u8>,
)
    requires
        size <= packet.len() || before.len() <= packet.len(),
        before.len() <= usize::MAX,
    ensures
        ({
            let (after, r) = packet_read(packet, ret, packets, size, before);
            &&& ret != 1000 ==> r == Err::<usize, TapError>(TapError::ReadFailed) && after == before
            &&& ret == 1000 && (packets == 0 || size == 0) ==> r == Err::<usize, TapError>(
                TapError::WouldBlock,
            ) && after == before
            &&& ret == 1000 && packets > 0 && size > 0 ==> {
                &&& r is Ok
                &&& r->Ok_0 <= size && r->Ok_0 <= before.len()
                &&& r->Ok_0 == size || r->Ok_0 == before.len()
                &&& after.len() == before.len()
                &&& forall|i: int|
                    0 <= i < before.len() ==> #[trigger] after[i] == (if i < r->Ok_0 {
                        packet[i]
                    } else {
                        before[i]
                    })
            }
        }),
        packet_written(ret, size) == (if ret == 1000 {
            Ok::<usize, TapError>(size)
        } else {
            Err(TapError::WriteFailed)
        }),
{
}

/// Only the failure of the pipe has an error of the system; any other is an input/output
/// error.
pub proof fn law_interface_errors(e: TapError, error: Error)
    ensures
        as_system_error(TapError::CreatePipe(error)) == TapSystemError::CreateTap(error),
        !(e is CreatePipe) ==> as_system_error(e) == TapSystemError::CreateTap(
            Error { number: 5 },
        ),
{
}

} // verus!

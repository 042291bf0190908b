//! Messages over a socket.
//!
//! The socket is a stream, so each message is preceded by its length: four
//! bytes, the lowest first.

use vstd::prelude::*;
use vstd::slice::slice_subrange;

use crate::errno::Error;
use crate::words::{from_le32, law_word32_round_trip, le32, to_le32, word32};

verus! {

/// The number of descriptors that a message carries at most, unless the sender
/// says otherwise.
pub const TUBE_MAX_FDS: usize = 32;

/// The number of descriptors that a message can carry.
pub const SCM_SOCKET_MAX_FD_COUNT: usize = 253;

/// The size of the length that precedes a message.
pub const FRAME_HEADER: usize = 4;

/// How much is read at first: the length, and nothing behind it.
pub const FIRST_READ: usize = 4;

/// What can go wrong with a tube.
#[derive(Clone, Copy, Debug, PartialEq, Eq, Structural)]
pub enum TubeError {
    /// The sockets could not be made.
    Pair(Error),
    /// A socket could not be set up for descriptors.
    ScmSocket(Error),
    /// The socket could not be cloned.
    Clone(Error),
    /// The message could not be encoded or decoded.
    Json,
    /// The message could not be sent.
    Send(Error),
    /// The message has too many descriptors.
    SendTooManyFds,
    /// Nothing could be received.
    Recv(Error),
    /// Too many descriptors were asked for.
    RecvTooManyFds,
    /// The other side is gone.
    Disconnected,
    /// The time limit for sending could not be set.
    SetSendTimeout(Error),
    /// The time limit for receiving could not be set.
    SetRecvTimeout(Error),
    /// The message could not be encoded or decoded as a protocol buffer.
    Proto,
}

/// A message as it goes over the stream.
pub open spec fn framed(payload: Seq<u8>) -> Seq<u8> {
    le32((payload.len() as int % 0x1_0000_0000) as u32) + payload
}

/// A message as it goes over the stream.
pub fn frame(payload: &Vec<u8>) -> (bytes: Vec<u8>)
    ensures
        bytes@ == framed(payload@),
{
    let len: u32 = (payload.len() as u64 % 0x1_0000_0000) as u32;
    let mut bytes: Vec<u8> = to_le32(len);
    let mut i: usize = 0;
    let ghost header = bytes@;
    assert(bytes@ =~= header + payload@.take(0));
    while i < payload.len()
        invariant
            i <= payload@.len(),
            bytes@ == header + payload@.take(i as int),
        decreases payload.len() - i,
    {
        bytes.push(payload[i]);
        i += 1;
        assert(bytes@ =~= header + payload@.take(i as int));
    }
    assert(payload@.take(i as int) =~= payload@);
    bytes
}

/// A message that is being received.
pub struct Recv {
    /// The message, as far as it was received; the rest is zero.
    pub payload: Vec<u8>,
    /// How much of it was received.
    pub total: usize,
}

/// What follows a read.
#[derive(Clone, Copy, Debug, PartialEq, Eq)]
pub enum RecvStep {
    /// Read this many bytes more at most and report them to [`Recv::more`].
    Read(usize),
    /// The message is there.
    Done,
    /// The other side is gone.
    Disconnected,
}

/// The length that the first read tells.
pub open spec fn told_len(data: Seq<u8>) -> int {
    word32(data.take(4)) as int
}

impl Recv {
    /// What is left is still to be read.
    pub open spec fn wf(self) -> bool {
        self.total <= self.payload@.len()
    }

    /// What follows when this much was received.
    pub open spec fn next(self) -> RecvStep {
        if self.total < self.payload@.len() {
            RecvStep::Read((self.payload@.len() - self.total) as usize)
        } else {
            RecvStep::Done
        }
    }

    /// Whether this is what the first read leaves: a message of the length that
    /// was told, of which nothing was received.
    pub open spec fn begins(self, data: Seq<u8>) -> bool {
        &&& self.payload@.len() == told_len(data)
        &&& self.total == 0
    }

    /// Whether this is what another read leaves: the bytes behind those that were
    /// received before.
    pub open spec fn continues(self, before: Recv, data: Seq<u8>) -> bool {
        &&& self.payload@.len() == before.payload@.len()
        &&& self.total == before.total + data.len()
        &&& self.payload@.take(self.total as int) == before.payload@.take(before.total as int)
            + data
    }

    /// What follows the first read, which leaves this.
    pub open spec fn after_first(self, data: Seq<u8>) -> RecvStep {
        if data.len() < 4 {
            RecvStep::Disconnected
        } else {
            self.next()
        }
    }

    /// What follows another read, which leaves this.
    pub open spec fn after_more(self, data: Seq<u8>) -> RecvStep {
        if data.len() == 0 {
            RecvStep::Disconnected
        } else {
            self.next()
        }
    }

    /// Begins with the bytes of the first read, which tell how much to read
    /// then. If the length is not there, the other side is gone.
    pub fn first(data: &[u8]) -> (r: (Recv, RecvStep))
        requires
            data@.len() <= FIRST_READ,
        ensures
            r.0.wf(),
            data@.len() >= 4 ==> r.0.begins(data@),
            r.1 == r.0.after_first(data@),
    {
        if data.len() < FRAME_HEADER {
            return (Recv { payload: Vec::new(), total: 0 }, RecvStep::Disconnected);
        }
        let payload_len: usize = from_le32(slice_subrange(data, 0, 4)) as usize;
        assert(data@.subrange(0, 4) =~= data@.take(4));
        let mut payload: Vec<u8> = Vec::new();
        payload.resize(payload_len, 0);
        let recv: Recv = Recv { payload, total: 0 };
        let step: RecvStep = recv.step();
        (recv, step)
    }

    fn step(&self) -> (step: RecvStep)
        requires
            self.wf(),
        ensures
            step == self.next(),
    {
        if self.total < self.payload.len() {
            RecvStep::Read(self.payload.len() - self.total)
        } else {
            RecvStep::Done
        }
    }

    /// Continues with the bytes of another read. None means that the other side
    /// is gone.
    pub fn more(&mut self, data: &[u8]) -> (step: RecvStep)
        requires
            old(self).wf(),
            data@.len() <= old(self).payload@.len() - old(self).total,
        ensures
            final(self).wf(),
            final(self).continues(*old(self), data@),
            step == final(self).after_more(data@),
    {
        let ghost before = self.payload@;
        let start: usize = self.total;
        let len: usize = data.len();
        let mut i: usize = 0;
        while i < len
            invariant
                i <= len,
                len == data@.len(),
                start + len <= before.len(),
                before.len() == self.payload@.len(),
                self.payload.len() == self.payload@.len(),
                self.total == start,
                forall|j: int| 0 <= j < start ==> self.payload@[j] == before[j],
                forall|j: int| 0 <= j < i ==> self.payload@[start + j] == data@[j],
            decreases len - i,
        {
            let ghost here = self.payload@;
            self.payload.set(start + i, data[i]);
            assert forall|j: int| 0 <= j < i + 1 implies self.payload@[start + j] == data@[j] by {
                if j < i {
                    assert(self.payload@[start + j] == here[start + j]);
                }
            }
            i += 1;
        }
        self.total = start + len;
        assert(self.payload@.take(self.total as int) =~= before.take(start as int) + data@);
        if len == 0 {
            return RecvStep::Disconnected;
        }
        self.step()
    }
}

/// The bytes of a sequence of reads, one after the other.
pub open spec fn stream(reads: Seq<Seq<u8>>) -> Seq<u8>
    decreases reads.len(),
{
    if reads.len() == 0 {
        Seq::empty()
    } else {
        stream(reads.drop_last()) + reads.last()
    }
}

/// A message is preceded by the four bytes of its length.
proof fn lemma_framed(payload: Seq<u8>)
    requires
        payload.len() < 0x1_0000_0000,
    ensures
        framed(payload).len() == 4 + payload.len(),
        word32(framed(payload).take(4)) == payload.len(),
        framed(payload).skip(4) == payload,
{
    law_word32_round_trip(payload.len() as u32);
    assert(payload.len() as int % 0x1_0000_0000 == payload.len());
    assert(framed(payload).take(4) =~= le32(payload.len() as u32));
    assert(framed(payload).skip(4) =~= payload);
}

/// Whether a message is received by these reads: the first asks for the length,
/// each of the others for no more than is left of the message, and each leaves
/// the state with its number.
pub open spec fn receives(reads: Seq<Seq<u8>>, states: Seq<Recv>) -> bool {
    &&& reads.len() >= 1
    &&& states.len() == reads.len()
    &&& reads[0].len() == FIRST_READ
    &&& states[0].begins(reads[0])
    &&& forall|i: int|
        1 <= i < reads.len() ==> (#[trigger] states[i]).continues(states[i - 1], reads[i])
            && reads[i].len() <= states[i - 1].payload@.len() - states[i - 1].total
}

/// What is received of a message is a beginning of it, and nothing behind it is
/// taken off the stream.
proof fn lemma_received(
    payload: Seq<u8>,
    rest: Seq<u8>,
    reads: Seq<Seq<u8>>,
    states: Seq<Recv>,
)
    requires
        payload.len() < 0x1_0000_0000,
        receives(reads, states),
        stream(reads).len() <= framed(payload).len() + rest.len(),
        stream(reads) == (framed(payload) + rest).take(stream(reads).len() as int),
    ensures
        4 <= stream(reads).len() <= framed(payload).len(),
        states.last().payload@.len() == payload.len(),
        states.last().total == stream(reads).len() - 4,
        states.last().payload@.take(states.last().total as int) == payload.take(
            states.last().total as int,
        ),
    decreases reads.len(),
{
    if reads.len() == 1 {
        lemma_framed(payload);
        reveal_with_fuel(stream, 2);
        assert(reads.drop_last().len() == 0);
        assert(stream(reads) =~= reads[0]);
        assert(reads[0].take(4) =~= framed(payload).take(4));
        assert(states.last().payload@.take(0) =~= payload.take(0));
    } else {
        let shorter = reads.drop_last();
        let sent = framed(payload) + rest;
        lemma_fewer_reads(reads, states);
        assert(stream(shorter) =~= stream(reads).take(stream(shorter).len() as int));
        assert(stream(shorter) =~= sent.take(stream(shorter).len() as int));
        lemma_received(payload, rest, shorter, states.drop_last());
        lemma_next_read(
            payload,
            rest,
            stream(shorter),
            reads.last(),
            states[reads.len() - 2],
            states.last(),
        );
    }
}

proof fn lemma_fewer_reads(reads: Seq<Seq<u8>>, states: Seq<Recv>)
    requires
        receives(reads, states),
        reads.len() > 1,
    ensures
        receives(reads.drop_last(), states.drop_last()),
        states.last().continues(states[reads.len() - 2], reads.last()),
        reads.last().len() <= states[reads.len() - 2].payload@.len() - states[reads.len()
            - 2].total,
{
    let shorter = reads.drop_last();
    let fewer = states.drop_last();
    assert forall|i: int| 1 <= i < shorter.len() implies (#[trigger] fewer[i]).continues(
        fewer[i - 1],
        shorter[i],
    ) && shorter[i].len() <= fewer[i - 1].payload@.len() - fewer[i - 1].total by {
        assert(states[i].continues(states[i - 1], reads[i]));
    }
    assert(states[reads.len() - 1].continues(states[reads.len() - 2], reads[reads.len() - 1]));
}

proof fn lemma_next_read(
    payload: Seq<u8>,
    rest: Seq<u8>,
    taken: Seq<u8>,
    read: Seq<u8>,
    before: Recv,
    after: Recv,
)
    requires
        payload.len() < 0x1_0000_0000,
        4 <= taken.len() <= framed(payload).len(),
        taken + read == (framed(payload) + rest).take((taken + read).len() as int),
        before.payload@.len() == payload.len(),
        before.total == taken.len() - 4,
        before.payload@.take(before.total as int) == payload.take(before.total as int),
        after.continues(before, read),
        read.len() <= before.payload@.len() - before.total,
    ensures
        (taken + read).len() <= framed(payload).len(),
        after.payload@.len() == payload.len(),
        after.total == (taken + read).len() - 4,
        after.payload@.take(after.total as int) == payload.take(after.total as int),
{
    lemma_framed(payload);
    let n = before.total as int;
    let all = framed(payload);
    assert forall|i: int| 0 <= i < read.len() implies read[i] == payload[n + i] by {
        assert((taken + read)[4 + n + i] == read[i]);
        assert((all + rest).take((taken + read).len() as int)[4 + n + i] == all[4 + n + i]);
        assert(all.skip(4)[n + i] == all[4 + n + i]);
    }
    assert(payload.take(n) + read =~= payload.take(n + read.len()));
}

/// What one side sends the other receives, whatever stands behind it on the
/// stream and however the stream is cut into reads: never is more taken off the
/// stream than the message, and once nothing more is read, the message is what
/// was received and exactly the message was taken.
pub proof fn law_received_is_sent(
    payload: Seq<u8>,
    rest: Seq<u8>,
    reads: Seq<Seq<u8>>,
    states: Seq<Recv>,
)
    requires
        payload.len() < 0x1_0000_0000,
        receives(reads, states),
        stream(reads).len() <= framed(payload).len() + rest.len(),
        stream(reads) == (framed(payload) + rest).take(stream(reads).len() as int),
    ensures
        stream(reads).len() <= framed(payload).len(),
        states.last().next() == RecvStep::Done <==> stream(reads) == framed(payload),
        states.last().next() == RecvStep::Done ==> {
            &&& states.last().payload@ == payload
            &&& (framed(payload) + rest).skip(stream(reads).len() as int) == rest
        },
{
    let last = states.last();
    lemma_framed(payload);
    lemma_received(payload, rest, reads, states);
    if last.next() == RecvStep::Done {
        assert(last.payload@.take(last.total as int) =~= last.payload@);
        assert(payload.take(last.total as int) =~= payload);
        assert(stream(reads) =~= framed(payload));
        assert((framed(payload) + rest).skip(stream(reads).len() as int) =~= rest);
    }
}

/// Messages as they stand on the stream, one behind the other.
pub open spec fn on_stream(messages: Seq<Seq<u8>>) -> Seq<u8>
    decreases messages.len(),
{
    if messages.len() == 0 {
        Seq::empty()
    } else {
        framed(messages[0]) + on_stream(messages.skip(1))
    }
}

/// A message that is sent stands behind those that wait already.
pub proof fn law_sent_comes_last(messages: Seq<Seq<u8>>, payload: Seq<u8>)
    ensures
        on_stream(messages) + framed(payload) == on_stream(messages.push(payload)),
    decreases messages.len(),
{
    reveal_with_fuel(on_stream, 2);
    if messages.len() == 0 {
        assert(messages.push(payload).skip(1) =~= Seq::empty());
        assert(on_stream(messages.push(payload)) =~= framed(payload));
        assert(on_stream(messages) + framed(payload) =~= framed(payload));
    } else {
        law_sent_comes_last(messages.skip(1), payload);
        assert(messages.push(payload).skip(1) =~= messages.skip(1).push(payload));
        assert(on_stream(messages) + framed(payload) =~= framed(messages[0]) + (on_stream(
            messages.skip(1),
        ) + framed(payload)));
    }
}

/// Messages are received one by one in the order in which they were sent: each
/// receive gives the first that waits, and leaves the others.
pub proof fn law_messages_arrive_in_order(
    messages: Seq<Seq<u8>>,
    reads: Seq<Seq<u8>>,
    states: Seq<Recv>,
)
    requires
        messages.len() > 0,
        messages[0].len() < 0x1_0000_0000,
        receives(reads, states),
        stream(reads).len() <= on_stream(messages).len(),
        stream(reads) == on_stream(messages).take(stream(reads).len() as int),
        states.last().next() == RecvStep::Done,
    ensures
        states.last().payload@ == messages[0],
        on_stream(messages).skip(stream(reads).len() as int) == on_stream(messages.skip(1)),
{
    law_received_is_sent(messages[0], on_stream(messages.skip(1)), reads, states);
}

/// What stands on the two streams between the ends of a pair.
#[verifier::ext_equal]
pub struct Connection {
    /// What the first end sent and the second has not received yet.
    pub forth: Seq<u8>,
    /// What the second end sent and the first has not received yet.
    pub back: Seq<u8>,
}

impl Connection {
    /// The connection after one end sent something.
    pub open spec fn sent(self, by_first: bool, bytes: Seq<u8>) -> Connection {
        if by_first {
            Connection { forth: self.forth + bytes, ..self }
        } else {
            Connection { back: self.back + bytes, ..self }
        }
    }

    /// What waits for an end.
    pub open spec fn waiting(self, at_first: bool) -> Seq<u8> {
        if at_first {
            self.back
        } else {
            self.forth
        }
    }

    /// The connection after an end received so many bytes.
    pub open spec fn received(self, at_first: bool, n: int) -> Connection {
        if at_first {
            Connection { back: self.back.skip(n), ..self }
        } else {
            Connection { forth: self.forth.skip(n), ..self }
        }
    }
}

/// Both ends of a pair reach each other: where nothing waits for an end, what the
/// other one sends is what it receives, in either direction, and the connection
/// is then as before.
pub proof fn law_pair_is_connected(
    before: Connection,
    by_first: bool,
    payload: Seq<u8>,
    reads: Seq<Seq<u8>>,
    states: Seq<Recv>,
)
    requires
        payload.len() < 0x1_0000_0000,
        before.waiting(!by_first).len() == 0,
        receives(reads, states),
        ({
            let waiting = before.sent(by_first, framed(payload)).waiting(!by_first);
            stream(reads).len() <= waiting.len() && stream(reads) == waiting.take(
                stream(reads).len() as int,
            )
        }),
        states.last().next() == RecvStep::Done,
    ensures
        states.last().payload@ == payload,
        before.sent(by_first, framed(payload)).received(!by_first, stream(reads).len() as int)
            == before,
{
    let waiting = before.sent(by_first, framed(payload)).waiting(!by_first);
    let nothing = Seq::<u8>::empty();
    assert(waiting =~= framed(payload) + nothing);
    law_received_is_sent(payload, nothing, reads, states);
    let after = before.sent(by_first, framed(payload)).received(
        !by_first,
        stream(reads).len() as int,
    );
    assert(after.forth =~= before.forth);
    assert(after.back =~= before.back);
}

/// A tube: one end of a connected pair of sockets.
#[derive(Clone, Copy, Debug, PartialEq, Eq, Structural)]
pub struct Tube {
    /// The descriptor of the socket.
    pub socket: i32,
}

/// A tube from a socket, once the socket was set up.
pub open spec fn tube_of(socket: i32, setup: Result<(), Error>) -> Result<Tube, TubeError> {
    match setup {
        Ok(_) => Ok(Tube { socket }),
        Err(e) => Err(TubeError::ScmSocket(e)),
    }
}

/// A pair of connected tubes, once the sockets were made and set up.
pub open spec fn pair_of(
    sockets: Result<(i32, i32), Error>,
    first: Result<(), Error>,
    second: Result<(), Error>,
) -> Result<(Tube, Tube), TubeError> {
    match (sockets, first, second) {
        (Err(e), _, _) => Err(TubeError::Pair(e)),
        (Ok(_), Err(e), _) => Err(TubeError::ScmSocket(e)),
        (Ok(_), Ok(_), Err(e)) => Err(TubeError::ScmSocket(e)),
        (Ok((a, b)), Ok(_), Ok(_)) => Ok((Tube { socket: a }, Tube { socket: b })),
    }
}

/// Another tube on the same socket, once the socket was cloned and set up.
pub open spec fn clone_of(cloned: Result<i32, Error>, setup: Result<(), Error>) -> Result<
    Tube,
    TubeError,
> {
    match (cloned, setup) {
        (Err(e), _) => Err(TubeError::Clone(e)),
        (Ok(_), Err(e)) => Err(TubeError::ScmSocket(e)),
        (Ok(socket), Ok(_)) => Ok(Tube { socket }),
    }
}

/// An encoded message, if it could be encoded.
pub open spec fn encoded_view(json: Option<Vec<u8>>) -> Option<Seq<u8>> {
    match json {
        Some(payload) => Some(payload@),
        None => None,
    }
}

/// The bytes that send a message with so many descriptors, of which at most `max_fds` are
/// allowed.
pub open spec fn sending(json: Option<Seq<u8>>, fds: usize, max_fds: usize) -> Result<
    Seq<u8>,
    TubeError,
> {
    if max_fds > SCM_SOCKET_MAX_FD_COUNT {
        Err(TubeError::SendTooManyFds)
    } else {
        match json {
            None => Err(TubeError::Json),
            Some(payload) => if fds > max_fds {
                Err(TubeError::SendTooManyFds)
            } else {
                Ok(framed(payload))
            },
        }
    }
}

/// How much to read at first to receive a message with at most so many descriptors.
pub open spec fn receiving(max_fds: usize) -> Result<usize, TubeError> {
    if max_fds > SCM_SOCKET_MAX_FD_COUNT {
        Err(TubeError::RecvTooManyFds)
    } else {
        Ok(FIRST_READ)
    }
}

/// What setting the time limit for sending comes to.
pub open spec fn send_timeout_set(result: Result<(), Error>) -> Result<(), TubeError> {
    match result {
        Ok(_) => Ok(()),
        Err(e) => Err(TubeError::SetSendTimeout(e)),
    }
}

/// What setting the time limit for receiving comes to.
pub open spec fn recv_timeout_set(result: Result<(), Error>) -> Result<(), TubeError> {
    match result {
        Ok(_) => Ok(()),
        Err(e) => Err(TubeError::SetRecvTimeout(e)),
    }
}

/// The message that was received.
pub open spec fn message_of(payload: Vec<u8>) -> Result<Vec<u8>, TubeError> {
    if payload@.len() == 0 {
        Err(TubeError::Disconnected)
    } else {
        Ok(payload)
    }
}

impl Tube {
    /// A tube from a socket, once the socket was set up for descriptors.
    pub fn try_from_socket(socket: i32, setup: Result<(), Error>) -> (r: Result<Tube, TubeError>)
        ensures
            r == tube_of(socket, setup),
    {
        match setup {
            Ok(_) => Ok(Tube { socket }),
            Err(e) => Err(TubeError::ScmSocket(e)),
        }
    }

    /// A pair of connected tubes, once the sockets were made and set up.
    pub fn pair(
        sockets: Result<(i32, i32), Error>,
        first: Result<(), Error>,
        second: Result<(), Error>,
    ) -> (r: Result<(Tube, Tube), TubeError>)
        ensures
            r == pair_of(sockets, first, second),
    {
        let (a, b): (i32, i32) = match sockets {
            Ok(pair) => pair,
            Err(e) => {
                return Err(TubeError::Pair(e));
            },
        };
        let tube1: Tube = match Tube::try_from_socket(a, first) {
            Ok(tube) => tube,
            Err(e) => {
                return Err(e);
            },
        };
        let tube2: Tube = match Tube::try_from_socket(b, second) {
            Ok(tube) => tube,
            Err(e) => {
                return Err(e);
            },
        };
        Ok((tube1, tube2))
    }

    /// Another tube on the same socket, once the socket was cloned and set up.
    pub fn try_clone(&self, cloned: Result<i32, Error>, setup: Result<(), Error>) -> (r: Result<
        Tube,
        TubeError,
    >)
        ensures
            r == clone_of(cloned, setup),
    {
        match cloned {
            Ok(socket) => Tube::try_from_socket(socket, setup),
            Err(e) => Err(TubeError::Clone(e)),
        }
    }

    /// The bytes that send a message with at most `max_fds` descriptors: `json`
    /// is the encoded message, or none if it could not be encoded, `fds` the
    /// number of its descriptors.
    pub fn send_with_max_fds(&self, json: Option<Vec<u8>>, fds: usize, max_fds: usize) -> (r: Result<
        Vec<u8>,
        TubeError,
    >)
        ensures
            match sending(encoded_view(json), fds, max_fds) {
                Ok(sent) => r matches Ok(bytes) && bytes@ == sent,
                Err(e) => r == Err::<Vec<u8>, TubeError>(e),
            },
    {
        if max_fds > SCM_SOCKET_MAX_FD_COUNT {
            return Err(TubeError::SendTooManyFds);
        }
        match json {
            None => Err(TubeError::Json),
            Some(payload) => {
                if fds > max_fds {
                    return Err(TubeError::SendTooManyFds);
                }
                Ok(frame(&payload))
            },
        }
    }

    /// The bytes that send a message with at most 32 descriptors.
    pub fn send(&self, json: Option<Vec<u8>>, fds: usize) -> (r: Result<Vec<u8>, TubeError>)
        ensures
            match sending(encoded_view(json), fds, TUBE_MAX_FDS) {
                Ok(sent) => r matches Ok(bytes) && bytes@ == sent,
                Err(e) => r == Err::<Vec<u8>, TubeError>(e),
            },
    {
        self.send_with_max_fds(json, fds, TUBE_MAX_FDS)
    }

    /// How much to read at first to receive a message with at most `max_fds`
    /// descriptors.
    pub fn recv_with_max_fds(&self, max_fds: usize) -> (r: Result<usize, TubeError>)
        ensures
            r == receiving(max_fds),
    {
        if max_fds > SCM_SOCKET_MAX_FD_COUNT {
            return Err(TubeError::RecvTooManyFds);
        }
        Ok(FIRST_READ)
    }

    /// How much to read at first to receive a message with at most 32
    /// descriptors.
    pub fn recv(&self) -> (r: Result<usize, TubeError>)
        ensures
            r == receiving(TUBE_MAX_FDS),
    {
        self.recv_with_max_fds(TUBE_MAX_FDS)
    }

    /// A message that was received: an empty one means that the other side is
    /// gone.
    pub fn received(&self, recv: Recv) -> (r: Result<Vec<u8>, TubeError>)
        ensures
            r == message_of(recv.payload),
    {
        if recv.payload.len() == 0 {
            return Err(TubeError::Disconnected);
        }
        Ok(recv.payload)
    }

    /// The result of setting the time limit for sending.
    pub fn set_send_timeout(&self, result: Result<(), Error>) -> (r: Result<(), TubeError>)
        ensures
            r == send_timeout_set(result),
    {
        match result {
            Ok(_) => Ok(()),
            Err(e) => Err(TubeError::SetSendTimeout(e)),
        }
    }

    /// The result of setting the time limit for receiving.
    pub fn set_recv_timeout(&self, result: Result<(), Error>) -> (r: Result<(), TubeError>)
        ensures
            r == recv_timeout_set(result),
    {
        match result {
            Ok(_) => Ok(()),
            Err(e) => Err(TubeError::SetRecvTimeout(e)),
        }
    }

    /// The bytes of a message that were received for a protocol buffer.
    pub fn recv_proto(&self, received: Result<Vec<u8>, Error>) -> (r: Result<Vec<u8>, TubeError>)
        ensures
            match received {
                Err(e) => r == Err::<Vec<u8>, TubeError>(TubeError::Recv(e)),
                Ok(bytes) => r == message_of(bytes),
            },
    {
        match received {
            Err(e) => Err(TubeError::Recv(e)),
            Ok(bytes) => {
                if bytes.len() == 0 {
                    return Err(TubeError::Disconnected);
                }
                Ok(bytes)
            },
        }
    }

    /// The descriptor of the tube.
    pub fn as_raw_descriptor(&self) -> (fd: i32)
        ensures
            fd == self.socket,
    {
        self.socket
    }
}

/// A tube for protocol buffers. Its messages carry no descriptors.
#[derive(Clone, Copy, Debug, PartialEq, Eq, Structural)]
pub struct ProtoTube {
    pub tube: Tube,
}

impl ProtoTube {
    /// A pair of connected tubes, once the sockets were made and set up.
    pub fn pair(
        sockets: Result<(i32, i32), Error>,
        first: Result<(), Error>,
        second: Result<(), Error>,
    ) -> (r: Result<(ProtoTube, ProtoTube), TubeError>)
        ensures
            match pair_of(sockets, first, second) {
                Ok((a, b)) => r == Ok::<(ProtoTube, ProtoTube), TubeError>(
                    ((ProtoTube { tube: a }), (ProtoTube { tube: b })),
                ),
                Err(e) => r == Err::<(ProtoTube, ProtoTube), TubeError>(e),
            },
    {
        match Tube::pair(sockets, first, second) {
            Ok((t1, t2)) => Ok((ProtoTube { tube: t1 }, ProtoTube { tube: t2 })),
            Err(e) => Err(e),
        }
    }

    /// The bytes of a message that were received.
    pub fn recv_proto(&self, received: Result<Vec<u8>, Error>) -> (r: Result<Vec<u8>, TubeError>)
        ensures
            match received {
                Err(e) => r == Err::<Vec<u8>, TubeError>(TubeError::Recv(e)),
                Ok(bytes) => r == message_of(bytes),
            },
    {
        self.tube.recv_proto(received)
    }
}

/// A message on the stream: four bytes that are its length, the lowest first, and then
/// the message itself. As much is read at first, and that tells the length.
pub proof fn law_wire_format(payload: Seq<u8>, i: u64)
    requires
        payload.len() < 0x1_0000_0000,
        i < 4,
    ensures
        framed(payload).len() == 4 + payload.len(),
        framed(payload)[i as int] as u64 == ((payload.len() as u64) >> (8 * i) as u64) & 0xff,
        framed(payload).skip(4) == payload,
        told_len(framed(payload).take(4)) == payload.len(),
        receiving(32) == Ok::<usize, TubeError>(4),
{
    let len = payload.len() as u64;
    lemma_framed(payload);
    crate::words::law_bytes_are_digits(len);
    assert(payload.len() as int % 0x1_0000_0000 == payload.len());
    assert(framed(payload)[i as int] == le32(len as u32)[i as int]);
    assert(le32(len as u32)[i as int] == crate::words::le64(len)[i as int]);
    assert(framed(payload).take(4).take(4) =~= framed(payload).take(4));
}

/// What is read next is what is missing of the message, and nothing once it is there; a
/// read that gives nothing, or not even the length, means that the other side is gone.
pub proof fn law_missing_bytes_are_read(recv: Recv, data: Seq<u8>)
    requires
        recv.wf(),
    ensures
        data.len() >= 4 ==> recv.after_first(data) == recv.next(),
        data.len() < 4 ==> recv.after_first(data) is Disconnected,
        data.len() > 0 ==> recv.after_more(data) == recv.next(),
        data.len() == 0 ==> recv.after_more(data) is Disconnected,
        recv.next() is Done <==> recv.total == recv.payload@.len(),
        recv.next() matches RecvStep::Read(n) ==> n > 0 && recv.total + n == recv.payload@.len(),
        !(recv.next() is Disconnected),
{
    assert(recv.payload.len() == recv.payload@.len());
}

/// A message is sent exactly if it could be encoded and has no more descriptors than are
/// allowed, which are 32 unless more are asked for and never more than 253; it is received
/// under the same limit. A limit that is too high is noticed first, a message that could
/// not be encoded next.
pub proof fn law_descriptors_are_limited(json: Option<Seq<u8>>, fds: usize, max_fds: usize)
    ensures
        TUBE_MAX_FDS == 32,
        max_fds <= 253 && fds <= max_fds ==> (json matches Some(payload) ==> sending(
            json,
            fds,
            max_fds,
        ) == Ok::<Seq<u8>, TubeError>(framed(payload))),
        sending(json, fds, max_fds) is Ok <==> json is Some && fds <= max_fds && max_fds <= 253,
        sending(json, fds, max_fds) == Err::<Seq<u8>, TubeError>(TubeError::Json) <==> json is None
            && max_fds <= 253,
        sending(json, fds, max_fds) matches Err(e) ==> e is Json || e is SendTooManyFds,
        receiving(max_fds) is Ok <==> max_fds <= 253,
        receiving(max_fds) matches Err(e) ==> e is RecvTooManyFds,
{
}

/// A pair of tubes has one end on each of the two sockets; it is made exactly if both
/// sockets are there and set up, and else what failed first is told. A clone is on the
/// cloned socket.
pub proof fn law_tubes_are_on_their_sockets(
    sockets: Result<(i32, i32), Error>,
    first: Result<(), Error>,
    second: Result<(), Error>,
    cloned: Result<i32, Error>,
)
    ensures
        match pair_of(sockets, first, second) {
            Ok((a, b)) => first is Ok && second is Ok && sockets == Ok::<(i32, i32), Error>(
                (a.socket, b.socket),
            ),
            Err(TubeError::Pair(e)) => sockets == Err::<(i32, i32), Error>(e),
            Err(TubeError::ScmSocket(e)) => sockets is Ok && (first == Err::<(), Error>(e) || (first
                is Ok && second == Err::<(), Error>(e))),
            Err(_) => false,
        },
        match clone_of(cloned, first) {
            Ok(tube) => first is Ok && cloned == Ok::<i32, Error>(tube.socket),
            Err(TubeError::Clone(e)) => cloned == Err::<i32, Error>(e),
            Err(TubeError::ScmSocket(e)) => cloned is Ok && first == Err::<(), Error>(e),
            Err(_) => false,
        },
        cloned matches Ok(socket) ==> clone_of(cloned, first) == tube_of(socket, first),
{
}

/// A message that came is what was received; an empty one means that the other side is
/// gone.
pub proof fn law_empty_message_is_the_end(payload: Vec<u8>)
    ensures
        payload@.len() > 0 ==> message_of(payload) == Ok::<Vec<u8>, TubeError>(payload),
        payload@.len() == 0 ==> message_of(payload) == Err::<Vec<u8>, TubeError>(
            TubeError::Disconnected,
        ),
{
}

/// A time limit that could not be set is an error of its own kind, with the reason.
pub proof fn law_time_limits(result: Result<(), Error>)
    ensures
        result is Ok ==> send_timeout_set(result) is Ok && recv_timeout_set(result) is Ok,
        result matches Err(e) ==> send_timeout_set(result) == Err::<(), TubeError>(
            TubeError::SetSendTimeout(e),
        ) && recv_timeout_set(result) == Err::<(), TubeError>(TubeError::SetRecvTimeout(e)),
{
}

/// A message of any length is preceded by its length modulo 2^32.
pub proof fn law_long_messages(payload: Seq<u8>)
    ensures
        framed(payload).len() == 4 + payload.len(),
        (payload.len() - told_len(framed(payload))) % 0x1_0000_0000 == 0,
        framed(payload).skip(4) == payload,
{
    let n = payload.len() as int;
    let low = (n % 0x1_0000_0000) as u32;
    law_word32_round_trip(low);
    assert(framed(payload).take(4) =~= le32(low));
    assert(framed(payload).skip(4) =~= payload);
    vstd::arithmetic::div_mod::lemma_fundamental_div_mod(n, 0x1_0000_0000);
    let q = n / 0x1_0000_0000;
    assert(n - n % 0x1_0000_0000 == 0x1_0000_0000 * q);
    vstd::arithmetic::div_mod::lemma_mod_multiples_basic(q, 0x1_0000_0000);
}

} // verus!

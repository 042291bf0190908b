//! The network device: frames between the guest and an interface of the host.

use vstd::prelude::*;

use crate::errno::Error;
use crate::vmnet::TapT;

verus! {

/// What can go wrong with the network device.
#[derive(Clone, Copy, Debug, PartialEq, Eq, Structural)]
pub enum NetError {
    /// A frame could not be written to the guest.
    WriteBuffer(Error),
    /// The guest has no room for frames.
    RxDescriptorsExhausted,
}

/// Checks that an interface can back the device and sets it up: every interface
/// can, and none needs setting up.
pub fn validate_and_configure_tap<T: TapT>(tap: &T, vq_pairs: u16) -> (r: Result<(), NetError>)
    ensures
        r == Ok::<(), NetError>(()),
{
    Ok(())
}

/// What the interface is to offload, given the features of the device: nothing.
pub fn virtio_features_to_tap_offload(features: u64) -> (offload: u32)
    ensures
        offload == 0,
{
    0
}

/// How writing a frame of the interface to the guest went.
#[derive(Clone, Copy, Debug, PartialEq, Eq, Structural)]
pub enum FrameWrite {
    /// This many bytes were written.
    Written(usize),
    /// The frame does not fit.
    TooSmall,
    /// There is no frame for now.
    WouldBlock,
    /// The interface is broken.
    Failed(Error),
}

/// Receiving frames.
#[derive(Clone, Copy, Debug, PartialEq, Eq, Structural)]
pub struct Rx {
    /// Whether the guest was given frames that it does not know of.
    pub needs_interrupt: bool,
}

/// The next step of receiving frames.
#[derive(Clone, Copy, Debug, PartialEq, Eq)]
pub enum RxStep {
    /// Look for room in the guest: [`Rx::peeked`].
    Peek,
    /// Write a frame to the room that was found: [`Rx::written`].
    WriteFrame,
    /// Give the room with the frame in it to the guest: [`Rx::returned`].
    ReturnUsed,
    /// End; before that, interrupt the guest if asked for.
    Finish { interrupt: bool, result: Result<(), NetError> },
}

/// What follows writing a frame.
pub open spec fn rx_after_write(needs_interrupt: bool, result: FrameWrite) -> RxStep {
    match result {
        FrameWrite::Written(n) => if n as int % 0x1_0000_0000 > 0 {
            RxStep::ReturnUsed
        } else {
            RxStep::Peek
        },
        FrameWrite::TooSmall => RxStep::Finish { interrupt: needs_interrupt, result: Ok(()) },
        FrameWrite::WouldBlock => RxStep::Finish { interrupt: needs_interrupt, result: Ok(()) },
        FrameWrite::Failed(e) => RxStep::Finish {
            interrupt: false,
            result: Err(NetError::WriteBuffer(e)),
        },
    }
}

/// What follows looking for room in the guest.
pub open spec fn rx_after_peek(needs_interrupt: bool, found: bool) -> RxStep {
    if found {
        RxStep::WriteFrame
    } else {
        RxStep::Finish {
            interrupt: needs_interrupt,
            result: Err(NetError::RxDescriptorsExhausted),
        }
    }
}

/// Whether the guest has frames that it does not know of, after writing a frame.
pub open spec fn rx_interrupt_after_write(needs_interrupt: bool, result: FrameWrite) -> bool {
    needs_interrupt || frame_came(result)
}

/// Receiving frames at its start, and its first step.
pub open spec fn rx_start() -> (Rx, RxStep) {
    (Rx { needs_interrupt: false }, RxStep::Peek)
}

/// What follows giving room with a frame in it to the guest.
pub open spec fn rx_after_return() -> RxStep {
    RxStep::Peek
}

/// Starts to receive frames.
pub fn process_rx() -> (r: (Rx, RxStep))
    ensures
        r == rx_start(),
{
    (Rx { needs_interrupt: false }, RxStep::Peek)
}

/// Starts to receive frames where one may fill several buffers: frames are not
/// split, as without that.
pub fn process_mrg_rx() -> (r: (Rx, RxStep))
    ensures
        r == rx_start(),
{
    process_rx()
}

impl Rx {
    /// Continues once room in the guest was looked for.
    pub fn peeked(&self, found: bool) -> (step: RxStep)
        ensures
            step == rx_after_peek(self.needs_interrupt, found),
    {
        if found {
            RxStep::WriteFrame
        } else {
            RxStep::Finish {
                interrupt: self.needs_interrupt,
                result: Err(NetError::RxDescriptorsExhausted),
            }
        }
    }

    /// Continues once the room with a frame in it was given to the guest: more
    /// room is looked for.
    pub fn returned(&self) -> (step: RxStep)
        ensures
            step == rx_after_return(),
    {
        RxStep::Peek
    }

    /// Continues once a frame was written to the guest, or was not.
    pub fn written(&mut self, result: FrameWrite) -> (step: RxStep)
        ensures
            step == rx_after_write(old(self).needs_interrupt, result),
            final(self).needs_interrupt == rx_interrupt_after_write(
                old(self).needs_interrupt,
                result,
            ),
    {
        match result {
            FrameWrite::Written(n) => {
                let bytes_written: u32 = (n as u64 % 0x1_0000_0000) as u32;
                if bytes_written > 0 {
                    self.needs_interrupt = true;
                    RxStep::ReturnUsed
                } else {
                    RxStep::Peek
                }
            },
            FrameWrite::TooSmall => RxStep::Finish {
                interrupt: self.needs_interrupt,
                result: Ok(()),
            },
            FrameWrite::WouldBlock => RxStep::Finish {
                interrupt: self.needs_interrupt,
                result: Ok(()),
            },
            FrameWrite::Failed(e) => RxStep::Finish {
                interrupt: false,
                result: Err(NetError::WriteBuffer(e)),
            },
        }
    }
}

/// Whether writing a frame put bytes of it into the guest.
pub open spec fn frame_came(result: FrameWrite) -> bool {
    result matches FrameWrite::Written(n) && n as int % 0x1_0000_0000 > 0
}

/// The steps from `step` on while the guest has `rooms` free buffers and writing
/// frames goes as `writes` says, one after the other. The steps stop where
/// `writes` says no more.
pub open spec fn rx_run(
    needs_interrupt: bool,
    step: RxStep,
    rooms: nat,
    writes: Seq<FrameWrite>,
) -> Seq<RxStep>
    decreases
            writes.len(),
            (match step {
                RxStep::ReturnUsed => 3int,
                RxStep::Peek => 2,
                RxStep::WriteFrame => 1,
                RxStep::Finish { .. } => 0,
            }),
{
    match step {
        RxStep::Peek => seq![step] + rx_run(
            needs_interrupt,
            rx_after_peek(needs_interrupt, rooms > 0),
            rooms,
            writes,
        ),
        RxStep::WriteFrame => if writes.len() > 0 {
            seq![step] + rx_run(
                rx_interrupt_after_write(needs_interrupt, writes[0]),
                rx_after_write(needs_interrupt, writes[0]),
                rooms,
                writes.skip(1),
            )
        } else {
            seq![step]
        },
        RxStep::ReturnUsed => seq![step] + rx_run(
            needs_interrupt,
            rx_after_return(),
            (rooms - 1) as nat,
            writes,
        ),
        RxStep::Finish { .. } => seq![step],
    }
}

/// What is done to receive frames: one buffer is given to the guest for each
/// frame that came, until there is no buffer, no frame for now, a frame that does
/// not fit, or a broken interface.
pub open spec fn rx_all(given: bool, rooms: nat, writes: Seq<FrameWrite>) -> Seq<RxStep>
    decreases writes.len(),
{
    if rooms == 0 {
        seq![
            RxStep::Peek,
            RxStep::Finish { interrupt: given, result: Err(NetError::RxDescriptorsExhausted) },
        ]
    } else if writes.len() == 0 {
        seq![RxStep::Peek, RxStep::WriteFrame]
    } else if frame_came(writes[0]) {
        seq![RxStep::Peek, RxStep::WriteFrame, RxStep::ReturnUsed] + rx_all(
            true,
            (rooms - 1) as nat,
            writes.skip(1),
        )
    } else {
        match writes[0] {
            FrameWrite::Written(_) => seq![RxStep::Peek, RxStep::WriteFrame] + rx_all(
                given,
                rooms,
                writes.skip(1),
            ),
            FrameWrite::TooSmall | FrameWrite::WouldBlock => seq![
                RxStep::Peek,
                RxStep::WriteFrame,
                RxStep::Finish { interrupt: given, result: Ok(()) },
            ],
            FrameWrite::Failed(e) => seq![
                RxStep::Peek,
                RxStep::WriteFrame,
                RxStep::Finish { interrupt: false, result: Err(NetError::WriteBuffer(e)) },
            ],
        }
    }
}

/// How many frames come, one buffer each, before receiving ends.
pub open spec fn frames_received(rooms: nat, writes: Seq<FrameWrite>) -> nat
    decreases writes.len(),
{
    if rooms == 0 || writes.len() == 0 {
        0
    } else if frame_came(writes[0]) {
        1 + frames_received((rooms - 1) as nat, writes.skip(1))
    } else if writes[0] is Written {
        frames_received(rooms, writes.skip(1))
    } else {
        0
    }
}

/// How often a buffer is given to the guest.
pub open spec fn buffers_given(steps: Seq<RxStep>) -> nat
    decreases steps.len(),
{
    if steps.len() == 0 {
        0
    } else {
        buffers_given(steps.skip(1)) + if steps[0] is ReturnUsed {
            1nat
        } else {
            0
        }
    }
}

/// Receiving frames, from its start: the guest is given one buffer for each frame
/// that came and no other, only the last step ends it, and that asks for an
/// interrupt exactly if a buffer was given and the interface is not broken.
pub proof fn law_frames_are_received(rooms: nat, writes: Seq<FrameWrite>)
    ensures
        ({
            let steps = rx_run(rx_start().0.needs_interrupt, rx_start().1, rooms, writes);
            &&& steps == rx_all(false, rooms, writes)
            &&& buffers_given(steps) == frames_received(rooms, writes)
            &&& forall|i: int| 0 <= i < steps.len() - 1 ==> !(#[trigger] steps[i] is Finish)
            &&& steps.last() matches RxStep::Finish { interrupt, result } ==> interrupt == (
            buffers_given(steps) > 0 && !(result matches Err(NetError::WriteBuffer(_))))
        }),
{
    lemma_rx_run(false, rooms, writes);
    lemma_rx_all(false, rooms, writes);
}

/// Receiving frames does what [`rx_all`] says, whether or not buffers were given
/// to the guest before.
proof fn lemma_rx_run(given: bool, rooms: nat, writes: Seq<FrameWrite>)
    ensures
        rx_run(given, RxStep::Peek, rooms, writes) == rx_all(given, rooms, writes),
    decreases writes.len(),
{
    reveal_with_fuel(rx_run, 4);
    if rooms > 0 && writes.len() > 0 {
        if frame_came(writes[0]) {
            lemma_rx_run(true, (rooms - 1) as nat, writes.skip(1));
        } else {
            lemma_rx_run(given, rooms, writes.skip(1));
        }
    }
    assert(rx_run(given, RxStep::Peek, rooms, writes) =~= rx_all(given, rooms, writes));
}

/// The first step gives a buffer or not, the others give theirs.
proof fn lemma_buffers_given(first: RxStep, rest: Seq<RxStep>)
    ensures
        buffers_given(seq![first] + rest) == buffers_given(rest) + if first is ReturnUsed {
            1nat
        } else {
            0
        },
{
    assert((seq![first] + rest).skip(1) =~= rest);
}

/// What [`rx_all`] says of the buffers that are given and of the end.
proof fn lemma_rx_all(given: bool, rooms: nat, writes: Seq<FrameWrite>)
    ensures
        ({
            let steps = rx_all(given, rooms, writes);
            &&& steps.len() > 0
            &&& buffers_given(steps) == frames_received(rooms, writes)
            &&& forall|i: int| 0 <= i < steps.len() - 1 ==> !(#[trigger] steps[i] is Finish)
            &&& steps.last() matches RxStep::Finish { interrupt, result } ==> interrupt == ((given
                || buffers_given(steps) > 0) && !(result matches Err(NetError::WriteBuffer(_))))
        }),
    decreases writes.len(),
{
    let steps = rx_all(given, rooms, writes);
    let none = Seq::<RxStep>::empty();
    if rooms > 0 && writes.len() > 0 && writes[0] is Written {
        let came = frame_came(writes[0]);
        let left: nat = if came {
            (rooms - 1) as nat
        } else {
            rooms
        };
        let rest = rx_all(given || came, left, writes.skip(1));
        lemma_rx_all(given || came, left, writes.skip(1));
        let tail = if came {
            seq![RxStep::ReturnUsed] + rest
        } else {
            rest
        };
        if came {
            lemma_buffers_given(RxStep::ReturnUsed, rest);
        }
        lemma_buffers_given(RxStep::WriteFrame, tail);
        lemma_buffers_given(RxStep::Peek, seq![RxStep::WriteFrame] + tail);
        assert(steps =~= seq![RxStep::Peek] + (seq![RxStep::WriteFrame] + tail));
        assert(steps.last() == rest.last());
    } else {
        let end = steps.last();
        lemma_buffers_given(end, none);
        assert(seq![end] + none =~= seq![end]);
        if steps.len() == 2 {
            lemma_buffers_given(RxStep::Peek, seq![end]);
            assert(steps =~= seq![RxStep::Peek] + seq![end]);
        } else {
            lemma_buffers_given(RxStep::WriteFrame, seq![end]);
            lemma_buffers_given(RxStep::Peek, seq![RxStep::WriteFrame] + seq![end]);
            assert(steps =~= seq![RxStep::Peek] + (seq![RxStep::WriteFrame] + seq![end]));
        }
    }
}

/// The guest is interrupted only if it was given a frame.
pub proof fn law_interrupt_after_frame(needs_interrupt: bool, result: FrameWrite)
    ensures
        rx_after_write(needs_interrupt, result) is ReturnUsed ==> rx_interrupt_after_write(
            needs_interrupt,
            result,
        ),
        rx_interrupt_after_write(needs_interrupt, result) && !needs_interrupt ==> rx_after_write(
            needs_interrupt,
            result,
        ) is ReturnUsed,
        rx_after_write(needs_interrupt, result) matches RxStep::Finish { interrupt, .. }
            && interrupt ==> needs_interrupt,
{
}

/// How sending a frame of the guest went.
#[derive(Clone, Copy, Debug, PartialEq, Eq, Structural)]
pub enum FrameSent {
    /// All of it was taken.
    Whole,
    /// Only this many bytes were taken.
    Partly(usize),
    /// The interface is broken.
    Failed(Error),
}

/// How sending a frame of `expected` bytes went, given what the interface
/// returned.
pub open spec fn frame_outcome(expected: usize, result: Result<usize, Error>) -> FrameSent {
    match result {
        Ok(count) => if count == expected {
            FrameSent::Whole
        } else {
            FrameSent::Partly(count)
        },
        Err(e) => FrameSent::Failed(e),
    }
}

/// What happened while frames of the guest are sent.
#[derive(Clone, Copy, Debug, PartialEq, Eq)]
pub enum TxEvent {
    /// The next frame of the guest was taken, if there is one.
    Popped { found: bool },
    /// All of the frame, which has `expected` bytes, was offered to the
    /// interface.
    Sent { expected: usize, result: Result<usize, Error> },
    /// The buffer of the frame was given back.
    GivenBack,
    /// The guest was interrupted.
    Interrupted,
}

/// What is done next while frames of the guest are sent.
#[derive(Clone, Copy, Debug, PartialEq, Eq, Structural)]
pub enum TxStep {
    /// Take the next frame of the guest.
    Pop,
    /// Offer all of the frame to the interface.
    Send,
    /// Give the buffer of the frame back to the guest; this is how sending it
    /// went.
    GiveBack(FrameSent),
    /// Interrupt the guest.
    Interrupt,
    /// End.
    Done,
}

/// What follows an event: the buffer is given back however sending went, and the
/// guest is interrupted once no frame is left.
pub open spec fn tx_next(event: TxEvent) -> TxStep {
    match event {
        TxEvent::Popped { found } => if found {
            TxStep::Send
        } else {
            TxStep::Interrupt
        },
        TxEvent::Sent { expected, result } => TxStep::GiveBack(frame_outcome(expected, result)),
        TxEvent::GivenBack => TxStep::Pop,
        TxEvent::Interrupted => TxStep::Done,
    }
}

/// The first step of sending the frames of the guest.
pub open spec fn tx_first() -> TxStep {
    TxStep::Pop
}

/// Starts to send the frames of the guest.
pub fn process_tx() -> (step: TxStep)
    ensures
        step == tx_first(),
{
    TxStep::Pop
}

/// Continues to send the frames of the guest.
pub fn tx_step(event: TxEvent) -> (step: TxStep)
    ensures
        step == tx_next(event),
{
    match event {
        TxEvent::Popped { found } => if found {
            TxStep::Send
        } else {
            TxStep::Interrupt
        },
        TxEvent::Sent { expected, result } => TxStep::GiveBack(
            match result {
                Ok(count) => if count != expected {
                    FrameSent::Partly(count)
                } else {
                    FrameSent::Whole
                },
                Err(e) => FrameSent::Failed(e),
            },
        ),
        TxEvent::GivenBack => TxStep::Pop,
        TxEvent::Interrupted => TxStep::Done,
    }
}

/// The steps from `step` on while the queue holds `frames`, each given by its
/// size and what offering it to the interface returns.
pub open spec fn tx_run(step: TxStep, frames: Seq<(usize, Result<usize, Error>)>) -> Seq<TxStep>
    decreases
            frames.len(),
            (match step {
                TxStep::GiveBack(_) => 4int,
                TxStep::Pop => 3,
                TxStep::Send => 2,
                TxStep::Interrupt => 1,
                TxStep::Done => 0,
            }),
{
    match step {
        TxStep::Pop => seq![step] + tx_run(
            tx_next(TxEvent::Popped { found: frames.len() > 0 }),
            frames,
        ),
        TxStep::Send => if frames.len() > 0 {
            seq![step] + tx_run(
                tx_next(TxEvent::Sent { expected: frames[0].0, result: frames[0].1 }),
                frames.skip(1),
            )
        } else {
            seq![step]
        },
        TxStep::GiveBack(_) => seq![step] + tx_run(tx_next(TxEvent::GivenBack), frames),
        TxStep::Interrupt => seq![step] + tx_run(tx_next(TxEvent::Interrupted), frames),
        TxStep::Done => seq![step],
    }
}

/// What is done with the frames of a queue: each is taken, offered and given back,
/// one after the other, then the guest is interrupted.
pub open spec fn tx_all(frames: Seq<(usize, Result<usize, Error>)>) -> Seq<TxStep>
    decreases frames.len(),
{
    if frames.len() == 0 {
        seq![TxStep::Pop, TxStep::Interrupt, TxStep::Done]
    } else {
        seq![
            TxStep::Pop,
            TxStep::Send,
            TxStep::GiveBack(frame_outcome(frames[0].0, frames[0].1)),
        ] + tx_all(frames.skip(1))
    }
}

/// All frames of the guest are sent: each is offered to the interface once and
/// given back once, in their order, whatever the interface made of it, and one
/// interrupt follows the last of them, also where there was none.
pub proof fn law_all_frames_are_sent(frames: Seq<(usize, Result<usize, Error>)>)
    ensures
        tx_run(tx_first(), frames) == tx_all(frames),
    decreases frames.len(),
{
    reveal_with_fuel(tx_run, 4);
    if frames.len() > 0 {
        law_all_frames_are_sent(frames.skip(1));
        assert(tx_run(TxStep::Pop, frames) =~= tx_all(frames));
    } else {
        assert(tx_run(TxStep::Pop, frames) =~= tx_all(frames));
    }
}

/// What ends receiving frames, and how: where there is no room, that is told; where there
/// is no frame for now, or one that does not fit, all is well; where the interface is
/// broken, its error is told. Only then is it over, and the guest is interrupted where it
/// was given frames before and the interface is not broken. A frame with bytes is given to
/// the guest, one without is not.
pub proof fn law_receiving_ends(needs_interrupt: bool, result: FrameWrite)
    ensures
        rx_after_peek(needs_interrupt, true) is WriteFrame,
        rx_after_peek(needs_interrupt, false) == (RxStep::Finish {
            interrupt: needs_interrupt,
            result: Err::<(), NetError>(NetError::RxDescriptorsExhausted),
        }),
        match result {
            FrameWrite::Written(n) => {
                &&& n as int % 0x1_0000_0000 == 0 ==> rx_after_write(needs_interrupt, result) is Peek
                    && rx_interrupt_after_write(needs_interrupt, result) == needs_interrupt
                &&& n as int % 0x1_0000_0000 != 0 ==> rx_after_write(needs_interrupt, result)
                    is ReturnUsed && rx_interrupt_after_write(needs_interrupt, result)
            },
            FrameWrite::TooSmall | FrameWrite::WouldBlock => rx_after_write(needs_interrupt, result)
                == (RxStep::Finish { interrupt: needs_interrupt, result: Ok::<(), NetError>(()) }),
            FrameWrite::Failed(e) => rx_after_write(needs_interrupt, result) == (RxStep::Finish {
                interrupt: false,
                result: Err::<(), NetError>(NetError::WriteBuffer(e)),
            }),
        },
        rx_after_return() is Peek,
{
}

/// The steps of sending the frames of the guest, one by one: frame `i` is taken, offered
/// and given back by three steps behind those of the frames before it. It counts as sent
/// exactly if the interface took as many bytes as it has; else how many it took is told,
/// or its error. Behind the last frame the guest is interrupted once.
pub proof fn law_frame_by_frame(frames: Seq<(usize, Result<usize, Error>)>, i: int)
    requires
        0 <= i < frames.len(),
    ensures
        ({
            let steps = tx_run(tx_first(), frames);
            &&& steps.len() == 3 * frames.len() + 3
            &&& steps[3 * i] is Pop
            &&& steps[3 * i + 1] is Send
            &&& steps[3 * i + 2] matches TxStep::GiveBack(sent) && (match frames[i].1 {
                Ok(n) => (sent is Whole <==> n == frames[i].0) && (sent == FrameSent::Partly(n)
                    <==> n != frames[i].0),
                Err(e) => sent == FrameSent::Failed(e),
            })
            &&& steps[3 * frames.len() as int] is Pop
            &&& steps[3 * frames.len() as int + 1] is Interrupt
            &&& steps[3 * frames.len() as int + 2] is Done
        }),
{
    law_all_frames_are_sent(frames);
    lemma_tx_all(frames, i);
}

proof fn lemma_tx_all(frames: Seq<(usize, Result<usize, Error>)>, i: int)
    ensures
        ({
            let steps = tx_all(frames);
            let n = frames.len() as int;
            &&& steps.len() == 3 * n + 3
            &&& 0 <= i < n ==> steps[3 * i] is Pop && steps[3 * i + 1] is Send && steps[3 * i + 2]
                == TxStep::GiveBack(frame_outcome(frames[i].0, frames[i].1))
            &&& steps[3 * n] is Pop
            &&& steps[3 * n + 1] is Interrupt
            &&& steps[3 * n + 2] is Done
        }),
    decreases frames.len(),
{
    if frames.len() > 0 {
        let rest = frames.skip(1);
        lemma_tx_all(rest, i - 1);
        let steps = tx_all(frames);
        let tail = tx_all(rest);
        let n = rest.len() as int;
        assert(steps.len() == 3 + tail.len());
        assert(steps[3 * (n + 1)] == tail[3 * n]);
        assert(steps[3 * (n + 1) + 1] == tail[3 * n + 1]);
        assert(steps[3 * (n + 1) + 2] == tail[3 * n + 2]);
        if 0 < i < frames.len() {
            assert(steps[3 * i] == tail[3 * (i - 1)]);
            assert(steps[3 * i + 1] == tail[3 * (i - 1) + 1]);
            assert(steps[3 * i + 2] == tail[3 * (i - 1) + 2]);
            assert(rest[i - 1] == frames[i]);
        }
    }
}

} // verus!

//! Reading from and writing to a source that may have to be waited for.

use vstd::prelude::*;

use crate::base::{file_punch_hole, file_write_zeroes_at, PunchHoleArgs};
use crate::cros_async::kqueue_reactor::{
    registered, wait_to_read, EventType, KeventRequest, KqueueReactor, ReactorError,
    RegisteredSource,
};
use crate::cros_async::ops::slab_next_key;
use crate::errno::{Error, EAGAIN, EINTR};

verus! {

/// What follows a read or write.
#[derive(Clone, Copy, Debug, PartialEq, Eq)]
pub enum IoStep {
    /// This many bytes were transferred.
    Done(usize),
    /// It was interrupted: make it again.
    Retry,
    /// Wait until the source is ready in this way, then make it again.
    Wait(EventType),
    /// It failed.
    Fail(Error),
}

/// What follows a read or write, given the number of bytes or the error, and the
/// way in which the source has to be ready for it.
pub open spec fn io_result(result: Result<usize, Error>, readiness: EventType) -> IoStep {
    match result {
        Ok(n) => IoStep::Done(n),
        Err(e) => if e.number == EINTR {
            IoStep::Retry
        } else if e.number == EAGAIN {
            IoStep::Wait(readiness)
        } else {
            IoStep::Fail(e)
        },
    }
}

/// What follows a read or write.
pub fn io_step(result: Result<usize, Error>, readiness: EventType) -> (step: IoStep)
    ensures
        step == io_result(result, readiness),
{
    match result {
        Ok(n) => IoStep::Done(n),
        Err(e) => if e.number == EINTR {
            IoStep::Retry
        } else if e.number == EAGAIN {
            IoStep::Wait(readiness)
        } else {
            IoStep::Fail(e)
        },
    }
}

/// A region of memory.
#[derive(Clone, Copy, Debug, PartialEq, Eq, Structural)]
pub struct MemRegion {
    pub offset: u64,
    pub len: usize,
}

/// A transfer between a source and several regions of memory.
pub struct MemTransfer {
    /// The regions, in their order.
    pub regions: Vec<MemRegion>,
    /// Where in the source the transfer begins; none for a stream.
    pub file_offset: Option<u64>,
    /// The region that comes next.
    pub index: usize,
    /// How many bytes were transferred so far.
    pub total: usize,
    /// The way in which the source has to be ready.
    pub readiness: EventType,
}

/// The next step of a transfer.
#[derive(Clone, Copy, Debug, PartialEq, Eq)]
pub enum TransferStep {
    /// Transfer this region, at this place of the source.
    Transfer { region: MemRegion, offset: Option<u64> },
    /// Wait until the source is ready in this way, then transfer this region.
    Wait { region: MemRegion, offset: Option<u64>, readiness: EventType },
    /// The transfer is over: the number of bytes, or the error.
    Done(Result<usize, TransferError>),
}

/// Why a transfer failed.
#[derive(Clone, Copy, Debug, PartialEq, Eq, Structural)]
pub enum TransferError {
    /// The memory has no such region.
    InvalidRegion,
    /// The system failed.
    Os(Error),
}

/// A transfer of which nothing is done yet.
pub open spec fn new_transfer(
    file_offset: Option<u64>,
    regions: Vec<MemRegion>,
    readiness: EventType,
) -> MemTransfer {
    MemTransfer { regions, file_offset, index: 0, total: 0, readiness }
}

impl MemTransfer {
    /// Whether the place of the source is a number of the machine.
    pub open spec fn fits(self) -> bool {
        self.file_offset matches Some(o) ==> o + self.total <= u64::MAX
    }

    /// The place of the source that comes next.
    pub open spec fn offset(self) -> Option<u64> {
        match self.file_offset {
            Some(o) => Some((o + self.total) as u64),
            None => None,
        }
    }

    /// The step that transfers the region that comes next.
    pub open spec fn next_step(self) -> TransferStep {
        if self.index < self.regions@.len() {
            TransferStep::Transfer {
                region: self.regions@[self.index as int],
                offset: self.offset(),
            }
        } else {
            TransferStep::Done(Ok(self.total))
        }
    }

    /// The transfer once its next region was transferred, in part or as a whole,
    /// or was not.
    pub open spec fn after(self, mapped: bool, result: Result<usize, Error>) -> MemTransfer {
        match io_result(result, self.readiness) {
            IoStep::Done(n) => if mapped {
                MemTransfer {
                    index: (self.index + 1) as usize,
                    total: (self.total + n) as usize,
                    ..self
                }
            } else {
                self
            },
            _ => self,
        }
    }

    /// The step that follows then.
    pub open spec fn after_step(self, mapped: bool, result: Result<usize, Error>) -> TransferStep {
        if !mapped {
            TransferStep::Done(Err(TransferError::InvalidRegion))
        } else {
            match io_result(result, self.readiness) {
                IoStep::Done(_) => self.after(mapped, result).next_step(),
                IoStep::Retry => self.next_step(),
                IoStep::Wait(readiness) => TransferStep::Wait {
                    region: self.regions@[self.index as int],
                    offset: self.offset(),
                    readiness,
                },
                IoStep::Fail(e) => TransferStep::Done(Err(TransferError::Os(e))),
            }
        }
    }

    /// A transfer of which nothing is done yet.
    pub fn new(file_offset: Option<u64>, regions: Vec<MemRegion>, readiness: EventType) -> (
        transfer: MemTransfer)
        ensures
            transfer == new_transfer(file_offset, regions, readiness),
            transfer.fits(),
    {
        MemTransfer { regions, file_offset, index: 0, total: 0, readiness }
    }

    /// The next step.
    pub fn step(&self) -> (step: TransferStep)
        requires
            self.fits(),
        ensures
            step == self.next_step(),
    {
        if self.index < self.regions.len() {
            TransferStep::Transfer {
                region: self.regions[self.index],
                offset: self.place(),
            }
        } else {
            TransferStep::Done(Ok(self.total))
        }
    }

    fn place(&self) -> (offset: Option<u64>)
        requires
            self.fits(),
        ensures
            offset == self.offset(),
    {
        match self.file_offset {
            Some(o) => Some(o + self.total as u64),
            None => None,
        }
    }

    /// Continues once a region was transferred, in part or as a whole, or was
    /// not. `mapped` says whether the memory has the region.
    pub fn transferred(&mut self, mapped: bool, result: Result<usize, Error>) -> (step: TransferStep)
        requires
            old(self).fits(),
            old(self).index < old(self).regions@.len(),
            result matches Ok(n) ==> old(self).total + n <= usize::MAX && (old(
                self,
            ).file_offset matches Some(o) ==> o + old(self).total + n <= u64::MAX),
        ensures
            final(self).fits(),
            final(self).regions == old(self).regions,
            *final(self) == old(self).after(mapped, result),
            step == old(self).after_step(mapped, result),
    {
        if !mapped {
            return TransferStep::Done(Err(TransferError::InvalidRegion));
        }
        match io_step(result, self.readiness) {
            IoStep::Done(n) => {
                assert(self.regions.len() == self.regions@.len());
                self.total = self.total + n;
                self.index = self.index + 1;
                self.step()
            },
            IoStep::Retry => self.step(),
            IoStep::Wait(readiness) => TransferStep::Wait {
                region: self.regions[self.index],
                offset: self.place(),
                readiness,
            },
            IoStep::Fail(e) => TransferStep::Done(Err(TransferError::Os(e))),
        }
    }
}

/// What follows a read into a buffer.
pub open spec fn read_step(result: Result<usize, Error>) -> IoStep {
    io_result(result, EventType::Read)
}

/// What follows a write from a buffer.
pub open spec fn write_step(result: Result<usize, Error>) -> IoStep {
    io_result(result, EventType::Write)
}

/// A read into regions of memory, of which nothing is done yet.
pub open spec fn reading(file_offset: Option<u64>, regions: Vec<MemRegion>) -> MemTransfer {
    new_transfer(file_offset, regions, EventType::Read)
}

/// A write from regions of memory, of which nothing is done yet.
pub open spec fn writing(file_offset: Option<u64>, regions: Vec<MemRegion>) -> MemTransfer {
    new_transfer(file_offset, regions, EventType::Write)
}

/// What bringing writes to storage comes to.
pub open spec fn synced_as(synced: Result<(), Error>) -> Result<(), ReactorError> {
    match synced {
        Ok(_) => Ok(()),
        Err(e) => Err(ReactorError::Os(e)),
    }
}

/// What bringing data to storage comes to.
pub open spec fn data_synced_as(full: bool, synced: Result<(), Error>) -> Result<
    (),
    ReactorError,
> {
    if full {
        Ok(())
    } else {
        synced_as(synced)
    }
}

/// A source that is read and written through the reactor.
pub struct KqueueSource<F> {
    pub registered_source: RegisteredSource<F>,
}

impl<F> KqueueSource<F> {
    /// A source, once its descriptor was made non-blocking and duplicated.
    pub fn new(f: F, flags: Result<(), Error>, duped: Result<i32, Error>) -> (r: Result<
        KqueueSource<F>,
        ReactorError,
    >)
        ensures
            match registered(f, flags, duped) {
                Ok(registered_source) => r == Ok::<KqueueSource<F>, ReactorError>(
                    KqueueSource { registered_source },
                ),
                Err(e) => r == Err::<KqueueSource<F>, ReactorError>(e),
            },
    {
        match RegisteredSource::new(f, flags, duped) {
            Ok(registered_source) => Ok(KqueueSource { registered_source }),
            Err(e) => Err(e),
        }
    }

    /// What follows a read into a buffer.
    pub fn read_to_vec(&self, result: Result<usize, Error>) -> (step: IoStep)
        ensures
            step == read_step(result),
    {
        io_step(result, EventType::Read)
    }

    /// What follows a write from a buffer.
    pub fn write_from_vec(&self, result: Result<usize, Error>) -> (step: IoStep)
        ensures
            step == write_step(result),
    {
        io_step(result, EventType::Write)
    }

    /// Starts to read into regions of memory.
    pub fn read_to_mem(&self, file_offset: Option<u64>, regions: Vec<MemRegion>) -> (transfer:
        MemTransfer)
        ensures
            transfer == reading(file_offset, regions),
            transfer.fits(),
    {
        MemTransfer::new(file_offset, regions, EventType::Read)
    }

    /// Starts to write from regions of memory.
    pub fn write_from_mem(&self, file_offset: Option<u64>, regions: Vec<MemRegion>) -> (transfer:
        MemTransfer)
        ensures
            transfer == writing(file_offset, regions),
            transfer.fits(),
    {
        MemTransfer::new(file_offset, regions, EventType::Write)
    }

    /// The result of bringing writes to storage, given what the system returned.
    pub fn fsync(&self, synced: Result<(), Error>) -> (r: Result<(), ReactorError>)
        ensures
            r == synced_as(synced),
    {
        match synced {
            Ok(_) => Ok(()),
            Err(e) => Err(ReactorError::Os(e)),
        }
    }

    /// The result of bringing data to storage: where the full way is not
    /// supported, the plain one counts.
    pub fn fdatasync(&self, full: bool, synced: Result<(), Error>) -> (r: Result<(), ReactorError>)
        ensures
            r == data_synced_as(full, synced),
    {
        if full {
            return Ok(());
        }
        self.fsync(synced)
    }

    /// The source itself.
    pub fn into_source(self) -> (source: F)
        ensures
            source == self.registered_source.source,
    {
        self.registered_source.source
    }

    /// The source itself.
    pub fn as_source(&self) -> (source: &F)
        ensures
            *source == self.registered_source.source,
    {
        &self.registered_source.source
    }

    /// The source itself.
    pub fn as_source_mut(&mut self) -> (source: &mut F)
        ensures
            *source == old(self).registered_source.source,
            final(self).registered_source.source == *final(source),
            final(self).registered_source.duped_fd == old(self).registered_source.duped_fd,
    {
        &mut self.registered_source.source
    }

    /// Starts to wait until the source can be read; the executor may be gone.
    pub fn wait_readable(&self, reactor: Option<&KqueueReactor>) -> (r: Result<
        KeventRequest,
        ReactorError,
    >)
        ensures
            r == (match reactor {
                Some(reactor) => wait_to_read(
                    self.registered_source.duped_fd,
                    slab_next_key(reactor.ops),
                ),
                None => Err::<KeventRequest, ReactorError>(ReactorError::ExecutorGone),
            }),
    {
        self.registered_source.wait_readable(reactor)
    }

    /// The argument of the call that punches a hole.
    pub fn punch_hole(&self, file_offset: u64, len: u64) -> (args: PunchHoleArgs)
        ensures
            args == (PunchHoleArgs {
                fp_flags: 0,
                reserved: 0,
                fp_offset: file_offset,
                fp_length: len,
            }),
    {
        file_punch_hole(file_offset, len)
    }

    /// The bytes that zeroing a range writes.
    pub fn write_zeroes_at(&self, len: usize) -> (zeros: Vec<u8>)
        ensures
            zeros@ == Seq::new(len as nat, |i: int| 0u8),
    {
        file_write_zeroes_at(len)
    }
}

/// The sum of the numbers of bytes that were transferred.
pub open spec fn sum(counts: Seq<usize>) -> int
    decreases counts.len(),
{
    if counts.len() == 0 {
        0
    } else {
        sum(counts.drop_last()) + counts.last()
    }
}

/// A transfer after these numbers of bytes were transferred, region by region.
pub open spec fn after_counts(transfer: MemTransfer, counts: Seq<usize>) -> MemTransfer
    decreases counts.len(),
{
    if counts.len() == 0 {
        transfer
    } else {
        after_counts(transfer, counts.drop_last()).after(true, Ok(counts.last()))
    }
}

/// The regions are transferred one after the other and without a gap in the
/// source: the place of a region lies past the beginning by the number of bytes
/// that were transferred before it, and the number at the end is that of all
/// bytes.
pub proof fn law_transfer_is_contiguous(transfer: MemTransfer, counts: Seq<usize>)
    requires
        transfer.index == 0,
        transfer.total == 0,
        counts.len() <= transfer.regions@.len(),
        sum(counts) <= usize::MAX,
        transfer.file_offset matches Some(o) ==> o + sum(counts) <= u64::MAX,
    ensures
        ({
            let then = after_counts(transfer, counts);
            &&& then.regions == transfer.regions
            &&& then.index == counts.len()
            &&& then.total == sum(counts)
            &&& then.fits()
            &&& then.offset() == (match transfer.file_offset {
                Some(o) => Some((o + sum(counts)) as u64),
                None => None,
            })
            &&& counts.len() == transfer.regions@.len() ==> then.next_step() == TransferStep::Done(
                Ok(sum(counts) as usize),
            )
            &&& counts.len() < transfer.regions@.len() ==> then.next_step() == (
            TransferStep::Transfer {
                region: transfer.regions@[counts.len() as int],
                offset: then.offset(),
            })
        }),
    decreases counts.len(),
{
    assert(transfer.regions@.len() == transfer.regions.len());
    if counts.len() > 0 {
        lemma_sum_grows(counts);
        law_transfer_is_contiguous(transfer, counts.drop_last());
    }
}

proof fn lemma_sum_grows(counts: Seq<usize>)
    requires
        counts.len() > 0,
    ensures
        0 <= sum(counts.drop_last()) <= sum(counts),
    decreases counts.len(),
{
    if counts.len() > 1 {
        lemma_sum_grows(counts.drop_last());
    }
}

/// What follows a read or write: it is made again at once where it was interrupted, and
/// once the source is ready where it would block; any other error is how it ends, and so
/// is success, with the number of bytes.
pub proof fn law_transfers_are_repeated(result: Result<usize, Error>, readiness: EventType)
    ensures
        match result {
            Ok(n) => io_result(result, readiness) == IoStep::Done(n),
            Err(e) => {
                &&& io_result(result, readiness) is Retry <==> e.number == 4
                &&& io_result(result, readiness) == IoStep::Wait(readiness) <==> e.number == 35
                &&& io_result(result, readiness) == IoStep::Fail(e) <==> e.number != 4 && e.number
                    != 35
            },
        },
{
}

/// A region that was not transferred yet is transferred again from the same place, at once
/// or once the source is ready; nothing of the transfer changes meanwhile. A region that
/// the memory does not have, and any other error, ends the transfer.
pub proof fn law_region_is_repeated(transfer: MemTransfer, result: Result<usize, Error>)
    requires
        transfer.index < transfer.regions@.len(),
    ensures
        ({
            let region = transfer.regions@[transfer.index as int];
            let place = match transfer.file_offset {
                Some(start) => Some((start + transfer.total) as u64),
                None => None,
            };
            let step = transfer.after_step(true, result);
            &&& result is Err ==> transfer.after(true, result) == transfer
            &&& transfer.after(false, result) == transfer
            &&& transfer.after_step(false, result) == TransferStep::Done(
                Err::<usize, TransferError>(TransferError::InvalidRegion),
            )
            &&& result matches Err(e) ==> {
                &&& e.number == 4 ==> step == (TransferStep::Transfer { region, offset: place })
                &&& e.number == 35 ==> step == (TransferStep::Wait {
                    region,
                    offset: place,
                    readiness: transfer.readiness,
                })
                &&& e.number != 4 && e.number != 35 ==> step == TransferStep::Done(
                    Err::<usize, TransferError>(TransferError::Os(e)),
                )
            }
        }),
{
}

/// A transfer begins with its first region, at the place that was asked for, and waits for
/// the source in the way that was asked for.
pub proof fn law_transfer_begins(
    file_offset: Option<u64>,
    regions: Vec<MemRegion>,
    readiness: EventType,
)
    ensures
        ({
            let transfer = new_transfer(file_offset, regions, readiness);
            &&& transfer.readiness == readiness
            &&& transfer.regions == regions
            &&& regions@.len() > 0 ==> transfer.next_step() == (TransferStep::Transfer {
                region: regions@[0],
                offset: file_offset,
            })
            &&& regions@.len() == 0 ==> transfer.next_step() == TransferStep::Done(
                Ok::<usize, TransferError>(0),
            )
        }),
{
}

/// Bringing data to storage succeeds if the full way does, whatever the plain one would;
/// else the plain one counts.
pub proof fn law_data_is_synced(synced: Result<(), Error>, error: Error)
    ensures
        data_synced_as(true, synced) is Ok,
        data_synced_as(false, synced) == synced_as(synced),
        synced_as(Ok(())) is Ok,
        synced_as(Err(error)) == Err::<(), ReactorError>(ReactorError::Os(error)),
{
}

/// A read that would block waits until the source can be read, a write until it can be
/// written.
pub proof fn law_reads_wait_to_read(
    e: Error,
    file_offset: Option<u64>,
    regions: Vec<MemRegion>,
    n: usize,
)
    requires
        e.number == 35,
    ensures
        read_step(Err(e)) == IoStep::Wait(EventType::Read),
        write_step(Err(e)) == IoStep::Wait(EventType::Write),
        read_step(Ok(n)) == IoStep::Done(n),
        write_step(Ok(n)) == IoStep::Done(n),
        reading(file_offset, regions).readiness is Read,
        writing(file_offset, regions).readiness is Write,
        reading(file_offset, regions).next_step() == writing(file_offset, regions).next_step(),
        reading(file_offset, regions).next_step() == new_transfer(
            file_offset,
            regions,
            EventType::Read,
        ).next_step(),
{
}

} // verus!

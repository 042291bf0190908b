//! Guest memory.

use vstd::prelude::*;

use crate::errno::Error;

verus! {

/// Hints on how guest memory is used.
#[derive(Clone, Copy, Debug, PartialEq, Eq, Structural)]
pub struct MemoryPolicy {
    pub bits: u32,
}

/// The bit that asks for large pages.
pub const USE_HUGEPAGES: u32 = 1;

impl MemoryPolicy {
    /// No hints.
    pub fn empty() -> (policy: MemoryPolicy)
        ensures
            policy.bits == 0,
    {
        MemoryPolicy { bits: 0 }
    }

    /// The hint that large pages are of use.
    pub fn use_hugepages() -> (policy: MemoryPolicy)
        ensures
            policy.bits == USE_HUGEPAGES,
    {
        MemoryPolicy { bits: USE_HUGEPAGES }
    }
}

/// The memory of a guest.
pub struct GuestMemory {
    pub regions: Vec<MemoryRegion>,
}

/// A contiguous range of guest memory.
pub struct MemoryRegion {
    pub mapping: Vec<u8>,
}

impl GuestMemory {
    /// Takes hints on how the memory is used. They have no effect.
    pub fn set_memory_policy(&self, mem_policy: MemoryPolicy) {
    }
}

/// Completes shared memory: it cannot be sealed, so nothing is done.
pub fn finalize_shm() -> (r: Result<(), Error>)
    ensures
        r == Ok::<(), Error>(()),
{
    Ok(())
}

/// Memory with a range of zeros.
pub open spec fn zeroed(bytes: Seq<u8>, offset: int, size: int) -> Seq<u8> {
    Seq::new(
        bytes.len(),
        |i: int|
            if offset <= i < offset + size {
                0u8
            } else {
                bytes[i]
            },
    )
}

impl MemoryRegion {
    /// Fills a range with zeros.
    pub fn zero_range(&mut self, offset: usize, size: usize) -> (r: Result<(), Error>)
        requires
            offset + size <= old(self).mapping@.len(),
        ensures
            r == Ok::<(), Error>(()),
            final(self).mapping@ == zeroed(old(self).mapping@, offset as int, size as int),
    {
        let len: usize = self.mapping.len();
        let mut i: usize = 0;
        while i < size
            invariant
                i <= size,
                len == self.mapping@.len(),
                offset + size <= len,
                self.mapping@ =~= Seq::new(
                    old(self).mapping@.len(),
                    |k: int|
                        if offset <= k < offset + i {
                            0u8
                        } else {
                            old(self).mapping@[k]
                        },
                ),
            decreases size - i,
        {
            self.mapping.set(offset + i, 0);
            i += 1;
        }
        Ok(())
    }

    /// The ranges that hold data: holes are not looked for, so all of it.
    pub fn find_data_ranges(&self) -> (r: Result<Vec<(usize, usize)>, Error>)
        ensures
            r matches Ok(ranges) && ranges@ == seq![(0usize, self.mapping@.len() as usize)],
    {
        let mut ranges: Vec<(usize, usize)> = Vec::new();
        ranges.push((0, self.mapping.len()));
        assert(ranges@ =~= seq![(0usize, self.mapping@.len() as usize)]);
        Ok(ranges)
    }
}

/// A file to be mapped into the guest.
pub struct FileBackedMappingParameters {
    /// Where the file is.
    pub path: String,
    /// The setting that decides how the file is opened.
    pub writable: bool,
}

/// How a file is opened.
#[derive(Clone, Copy, Debug, PartialEq, Eq, Structural)]
pub struct OpenMode {
    pub read: bool,
    pub write: bool,
}

/// How a file to be mapped is opened.
pub open spec fn mode_of(writable: bool) -> OpenMode {
    OpenMode { read: true, write: !writable }
}

impl FileBackedMappingParameters {
    /// Where the file is, and how it is opened: for reading, and for writing too
    /// exactly if `writable` is not set.
    pub fn open(&self) -> (r: (String, OpenMode))
        ensures
            r.0@ == self.path@,
            r.1 == mode_of(self.writable),
    {
        (
            self.path.as_str().to_owned(),
            OpenMode { read: true, write: !self.writable },
        )
    }
}

/// Why guest memory cannot be shared with a device.
#[derive(Clone, Copy, Debug, PartialEq, Eq, Structural)]
pub enum UdmabufError {
    /// The system has no such driver.
    UdmabufUnsupported,
}

/// The driver that shares guest memory with devices.
#[derive(Clone, Copy, Debug, PartialEq, Eq, Structural)]
pub struct MacosUdmabufDriver {}

impl MacosUdmabufDriver {
    /// There is no such driver.
    pub fn new() -> (r: Result<MacosUdmabufDriver, UdmabufError>)
        ensures
            r == Err::<MacosUdmabufDriver, UdmabufError>(UdmabufError::UdmabufUnsupported),
    {
        Err(UdmabufError::UdmabufUnsupported)
    }

    /// Shares pieces of guest memory, given by address and size: that fails.
    pub fn create_udmabuf(&self, iovecs: &Vec<(u64, usize)>) -> (r: Result<i32, UdmabufError>)
        ensures
            r == Err::<i32, UdmabufError>(UdmabufError::UdmabufUnsupported),
    {
        Err(UdmabufError::UdmabufUnsupported)
    }
}

/// Exactly the bytes of the range are zero afterwards; the others stay.
pub proof fn law_range_is_zeroed(bytes: Seq<u8>, offset: int, size: int)
    requires
        0 <= offset,
        0 <= size,
        offset + size <= bytes.len(),
    ensures
        zeroed(bytes, offset, size) == bytes.take(offset) + Seq::new(size as nat, |i: int| 0u8)
            + bytes.skip(offset + size),
{
    assert(zeroed(bytes, offset, size) =~= bytes.take(offset) + Seq::new(size as nat, |i: int| 0u8)
        + bytes.skip(offset + size));
}

/// A file to be mapped is always opened for reading, and for writing too exactly if the
/// setting is off.
pub proof fn law_mapped_files_are_read(writable: bool)
    ensures
        mode_of(writable).read,
        mode_of(writable).write <==> !writable,
{
}

} // verus!

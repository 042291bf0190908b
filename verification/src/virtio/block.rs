//! The block device.

use vstd::prelude::*;

use crate::cros_async::event::ExecutorKindSys;

verus! {

/// The most pieces that a request is ever cut into.
pub const SEG_MAX: u32 = 1024;

/// The most pieces that a request is cut into on a queue of this size.
pub open spec fn seg_max_of(queue_size: u16) -> int {
    if queue_size - 2 < SEG_MAX {
        queue_size - 2
    } else {
        SEG_MAX as int
    }
}

/// The most pieces that a request is cut into on a queue of this size: two
/// places are taken by the header and the status.
pub fn get_seg_max(queue_size: u16) -> (seg_max: u32)
    requires
        queue_size >= 2,
    ensures
        seg_max == seg_max_of(queue_size),
{
    let room: u32 = queue_size as u32 - 2;
    if SEG_MAX < room {
        SEG_MAX
    } else {
        room
    }
}

/// A disk of the guest.
pub struct DiskOption {
    pub path: String,
    pub read_only: bool,
    pub sparse: bool,
    pub direct: bool,
    pub lock: bool,
}

/// How the file of a disk is opened.
pub struct DiskFileParams {
    pub path: String,
    pub is_read_only: bool,
    pub is_sparse_file: bool,
    pub is_overlapped: bool,
    pub is_direct: bool,
    pub lock: bool,
    pub depth: u32,
}

/// Whether the file of a disk is opened for reading only, as a sparse file, without the
/// cache, and with a lock.
pub open spec fn opened_with(disk: DiskOption) -> (bool, bool, bool, bool) {
    (disk.read_only, disk.sparse, disk.direct, disk.lock)
}

impl DiskOption {
    /// How the file of the disk is opened.
    pub fn open(&self) -> (params: DiskFileParams)
        ensures
            params.path@ == self.path@,
            (params.is_read_only, params.is_sparse_file, params.is_direct, params.lock)
                == opened_with(*self),
            !params.is_overlapped,
            params.depth == 0,
    {
        DiskFileParams {
            path: self.path.as_str().to_owned(),
            is_read_only: self.read_only,
            is_sparse_file: self.sparse,
            is_overlapped: false,
            is_direct: self.direct,
            lock: self.lock,
            depth: 0,
        }
    }
}

/// The block device.
#[derive(Clone, Copy, Debug, PartialEq, Eq, Structural)]
pub struct BlockAsync {
    /// What runs the device's tasks.
    pub executor_kind: ExecutorKindSys,
}

impl BlockAsync {
    /// What is to run the device's tasks.
    pub fn create_executor(&self) -> (kind: ExecutorKindSys)
        ensures
            kind == self.executor_kind,
    {
        self.executor_kind
    }
}

/// The most pieces of a request fit on the queue with a header and a status, are no more
/// than 1024, and no larger number is both.
pub proof fn law_seg_max(queue_size: u16, n: int)
    requires
        queue_size >= 2,
    ensures
        seg_max_of(queue_size) + 2 <= queue_size,
        seg_max_of(queue_size) <= 1024,
        n + 2 <= queue_size && n <= 1024 ==> n <= seg_max_of(queue_size),
{
}

/// The file of a disk is opened as the disk is configured: for reading only exactly if the
/// disk is read-only, and so on.
pub proof fn law_disk_is_opened_as_configured(disk: DiskOption)
    ensures
        opened_with(disk).0 <==> disk.read_only,
        opened_with(disk).1 <==> disk.sparse,
        opened_with(disk).2 <==> disk.direct,
        opened_with(disk).3 <==> disk.lock,
{
}

} // verus!

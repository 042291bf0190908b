//! Virtual devices.

pub mod block;
pub mod fsevents;
pub mod net;
pub mod vhost_user_backend;
pub mod vsock;

use vstd::prelude::*;

verus! {

/// What reading the configuration of a device at `offset` leaves in a buffer:
/// the bytes from there on, as many as there are and as fit, and behind them
/// what was there.
pub open spec fn config_read(before: Seq<u8>, config: Seq<u8>, offset: u64) -> Seq<u8> {
    let left = if offset < config.len() {
        config.len() - offset
    } else {
        0
    };
    let n = if before.len() < left {
        before.len() as int
    } else {
        left
    };
    Seq::new(
        before.len(),
        |i: int|
            if i < n {
                config[offset + i]
            } else {
                before[i]
            },
    )
}

/// Copies the configuration of a device from `offset` on into a buffer.
pub fn copy_config(data: &mut [u8], config: &Vec<u8>, offset: u64)
    ensures
        final(data)@ == config_read(old(data)@, config@, offset),
{
    let ghost before = data@;
    let len: usize = config.len();
    if offset < len as u64 {
        let from: usize = offset as usize;
        let mut i: usize = 0;
        while i < data.len() && i < len - from
            invariant
                i <= data@.len(),
                from == offset,
                from < len,
                len == config@.len(),
                i <= len - from,
                data@.len() == before.len(),
                forall|j: int| 0 <= j < i ==> data@[j] == config@[from + j],
                forall|j: int| i <= j < data@.len() ==> data@[j] == before[j],
            decreases data.len() - i,
        {
            data[i] = config[from + i];
            i += 1;
        }
    }
    assert(data@ =~= config_read(before, config@, offset));
}

/// Reading the configuration of a device gives its bytes at their places: a read in two
/// parts gives what one read does, a read of a byte gives that byte if there is one, and
/// what is behind the configuration stays as it was.
pub proof fn law_configuration_is_read(
    first: Seq<u8>,
    second: Seq<u8>,
    config: Seq<u8>,
    offset: u64,
    byte: u8,
)
    requires
        offset + first.len() <= u64::MAX,
    ensures
        config_read(first + second, config, offset) == config_read(first, config, offset)
            + config_read(second, config, (offset + first.len()) as u64),
        config_read(seq![byte], config, offset) == (if offset < config.len() {
            seq![config[offset as int]]
        } else {
            seq![byte]
        }),
        first.len() == config.len() ==> config_read(first, config, 0) == config,
{
    assert(config_read(first + second, config, offset) =~= config_read(first, config, offset)
        + config_read(second, config, (offset + first.len()) as u64));
    assert(config_read(seq![byte], config, offset) =~= (if offset < config.len() {
        seq![config[offset as int]]
    } else {
        seq![byte]
    }));
    if first.len() == config.len() {
        assert(config_read(first, config, 0) =~= config);
    }
}

} // verus!

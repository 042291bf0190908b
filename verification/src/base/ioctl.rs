//! Numbers of device control calls: direction, size of the argument, type and
//! number, packed into a word.

use vstd::prelude::*;

verus! {

pub const _IOC_NRBITS: u32 = 8;

pub const _IOC_TYPEBITS: u32 = 8;

pub const _IOC_SIZEBITS: u32 = 13;

pub const _IOC_DIRBITS: u32 = 3;

pub const _IOC_NRSHIFT: u32 = 0;

pub const _IOC_TYPESHIFT: u32 = 8;

pub const _IOC_SIZESHIFT: u32 = 16;

pub const _IOC_DIRSHIFT: u32 = 29;

/// The call has no argument.
pub const _IOC_NONE: u32 = 0;

/// The call reads its argument.
pub const _IOC_WRITE: u32 = 1;

/// The call writes its argument.
pub const _IOC_READ: u32 = 2;

/// The number of a call: the fields, each in its place.
pub open spec fn call_number(dir: u32, ty: u32, nr: u32, size: u32) -> u64 {
    ((dir as u64) << 29) | ((ty as u64) << 8) | (nr as u64) | ((size as u64) << 16)
}

/// Whether the fields fit their places.
pub open spec fn fields_fit(dir: u32, ty: u32, nr: u32, size: u32) -> bool {
    dir < 8 && ty < 0x100 && nr < 0x100 && size < 0x2000
}

/// The number of a call without argument.
pub open spec fn plain_call(ty: u32, nr: u32) -> u64 {
    call_number(_IOC_NONE, ty, nr, 0)
}

/// The number of a call that writes its argument.
pub open spec fn read_call(ty: u32, nr: u32, size: u32) -> u64 {
    call_number(_IOC_READ, ty, nr, size)
}

/// The number of a call that reads its argument.
pub open spec fn write_call(ty: u32, nr: u32, size: u32) -> u64 {
    call_number(_IOC_WRITE, ty, nr, size)
}

/// The number of a call that reads and writes its argument.
pub open spec fn read_write_call(ty: u32, nr: u32, size: u32) -> u64 {
    call_number(3, ty, nr, size)
}

/// The number of a call.
pub fn ioctl_expr(dir: u32, ty: u32, nr: u32, size: u32) -> (number: u64)
    ensures
        number == call_number(dir, ty, nr, size),
{
    ((dir as u64) << 29) | ((ty as u64) << 8) | (nr as u64) | ((size as u64) << 16)
}

/// The number of the `v`th call after the one with the given number.
pub fn ioctl_ioc_nr(dir: u32, ty: u32, nr: u32, size: u32, v: u32) -> (number: u64)
    requires
        nr + v <= u32::MAX,
    ensures
        number == call_number(dir, ty, (nr + v) as u32, size),
{
    ioctl_expr(dir, ty, nr + v, size)
}

/// The number of a call without argument.
pub fn ioctl_io_nr(ty: u32, nr: u32) -> (number: u64)
    ensures
        number == plain_call(ty, nr),
{
    ioctl_expr(_IOC_NONE, ty, nr, 0)
}

/// The number of a call that writes an argument of this size.
pub fn ioctl_ior_nr(ty: u32, nr: u32, size: u32) -> (number: u64)
    ensures
        number == read_call(ty, nr, size),
{
    ioctl_expr(_IOC_READ, ty, nr, size)
}

/// The number of a call that reads an argument of this size.
pub fn ioctl_iow_nr(ty: u32, nr: u32, size: u32) -> (number: u64)
    ensures
        number == write_call(ty, nr, size),
{
    ioctl_expr(_IOC_WRITE, ty, nr, size)
}

/// The number of a call that reads and writes an argument of this size.
pub fn ioctl_iowr_nr(ty: u32, nr: u32, size: u32) -> (number: u64)
    ensures
        number == read_write_call(ty, nr, size),
{
    ioctl_expr(_IOC_READ + _IOC_WRITE, ty, nr, size)
}

/// The fields of a call can be read off its number, so different calls have
/// different numbers.
pub proof fn law_fields_are_recovered(dir: u32, ty: u32, nr: u32, size: u32)
    requires
        fields_fit(dir, ty, nr, size),
    ensures
        call_number(dir, ty, nr, size) == dir * 0x2000_0000 + size * 0x1_0000 + ty * 0x100 + nr,
        call_number(dir, ty, nr, size) % 0x100 == nr,
        call_number(dir, ty, nr, size) / 0x100 % 0x100 == ty,
        call_number(dir, ty, nr, size) / 0x1_0000 % 0x2000 == size,
        call_number(dir, ty, nr, size) / 0x2000_0000 == dir,
{
    let d = dir as u64;
    let t = ty as u64;
    let n = nr as u64;
    let s = size as u64;
    assert((d << 29) | (t << 8) | n | (s << 16) == d * 0x2000_0000 + s * 0x1_0000 + t * 0x100 + n)
        by (bit_vector)
        requires
            d < 8,
            t < 0x100,
            n < 0x100,
            s < 0x2000,
    ;
}

/// The direction of a call is in the top bits of its number: the lowest of them says that
/// the call reads its argument, the next that it writes it. The size of the argument, the
/// type and the number of the call follow.
pub proof fn law_directions(ty: u32, nr: u32, size: u32)
    requires
        ty < 0x100,
        nr < 0x100,
        size < 0x2000,
    ensures
        plain_call(ty, nr) == ty * 0x100 + nr,
        write_call(ty, nr, size) == 0x2000_0000 + size * 0x1_0000 + ty * 0x100 + nr,
        read_call(ty, nr, size) == 0x4000_0000 + size * 0x1_0000 + ty * 0x100 + nr,
        read_write_call(ty, nr, size) == 0x6000_0000 + size * 0x1_0000 + ty * 0x100 + nr,
{
    law_fields_are_recovered(0, ty, nr, 0);
    law_fields_are_recovered(1, ty, nr, size);
    law_fields_are_recovered(2, ty, nr, size);
    law_fields_are_recovered(3, ty, nr, size);
}

} // verus!

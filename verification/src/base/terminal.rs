//! Modes of the terminal.

use vstd::prelude::*;

use crate::errno::Error;

verus! {

/// Input is edited line by line.
pub const ICANON: u64 = 0x100;

/// Input is shown.
pub const ECHO: u64 = 0x8;

/// Some input characters raise signals.
pub const ISIG: u64 = 0x80;

/// The three of them.
pub const LINE_MODE: u64 = 0x188;

/// Reading does not wait.
pub const O_NONBLOCK: i32 = 4;

/// The result of changing the mode of a terminal, once the mode was read and
/// the new one set.
pub fn modify_mode(read: Result<(), Error>, set: Result<(), Error>) -> (r: Result<(), Error>)
    ensures
        r == mode_changed(read, set),
{
    match read {
        Err(e) => Err(e),
        Ok(_) => match set {
            Err(e) => Err(e),
            Ok(_) => Ok(()),
        },
    }
}

/// What is done to the flags of a terminal's descriptor.
#[derive(Clone, Copy, Debug, PartialEq, Eq, Structural)]
pub enum FlagChange {
    Raise(i32),
    Lower(i32),
}

/// What changing the mode of a terminal comes to.
pub open spec fn mode_changed(read: Result<(), Error>, set: Result<(), Error>) -> Result<
    (),
    Error,
> {
    match (read, set) {
        (Err(e), _) => Err(e),
        (Ok(_), Err(e)) => Err(e),
        (Ok(_), Ok(_)) => Ok(()),
    }
}

/// The local modes of a terminal when lines are edited.
pub open spec fn canon_mode(lflag: u64) -> u64 {
    lflag | LINE_MODE
}

/// The local modes of a terminal when its input comes as it is.
pub open spec fn raw_mode(lflag: u64) -> u64 {
    lflag & !LINE_MODE
}

/// What makes reading from a terminal wait, or not.
pub open spec fn blocking_change(non_block: bool) -> FlagChange {
    if non_block {
        FlagChange::Raise(O_NONBLOCK)
    } else {
        FlagChange::Lower(O_NONBLOCK)
    }
}

/// A terminal.
pub trait Terminal {
    /// The descriptor of the terminal.
    fn tty_fd(&self) -> i32;

    /// The local modes of the terminal when lines are edited, from those that it
    /// has.
    fn set_canon_mode(&self, lflag: u64) -> (flags: u64)
        ensures
            flags == canon_mode(lflag),
    {
        lflag | (ICANON + ECHO + ISIG)
    }

    /// The local modes of the terminal when its input comes as it is, from those
    /// that it has.
    fn set_raw_mode(&self, lflag: u64) -> (flags: u64)
        ensures
            flags == raw_mode(lflag),
    {
        lflag & !(ICANON + ECHO + ISIG)
    }

    /// What makes reading from the terminal wait, or not.
    fn set_non_block(&self, non_block: bool) -> (change: FlagChange)
        ensures
            change == blocking_change(non_block),
    {
        if non_block {
            FlagChange::Raise(O_NONBLOCK)
        } else {
            FlagChange::Lower(O_NONBLOCK)
        }
    }
}

/// The standard input.
#[derive(Clone, Copy, Debug, PartialEq, Eq, Structural)]
pub struct Stdin {}

impl Terminal for Stdin {
    fn tty_fd(&self) -> (fd: i32)
        ensures
            fd == 0,
    {
        0
    }
}

/// The two modes differ in the three bits alone, and either undoes the other in
/// them.
pub proof fn law_modes(lflag: u64)
    ensures
        (lflag | LINE_MODE) & LINE_MODE == LINE_MODE,
        (lflag & !LINE_MODE) & LINE_MODE == 0,
        (lflag | LINE_MODE) & !LINE_MODE == lflag & !LINE_MODE,
        (lflag & !LINE_MODE) | LINE_MODE == lflag | LINE_MODE,
{
    assert((lflag | 0x188) & 0x188 == 0x188) by (bit_vector);
    assert((lflag & !0x188) & 0x188 == 0) by (bit_vector);
    assert((lflag | 0x188) & !0x188 == lflag & !0x188) by (bit_vector);
    assert((lflag & !0x188) | 0x188 == lflag | 0x188) by (bit_vector);
}

/// Where lines are edited, input is shown, signals are raised and lines come whole; where
/// input comes as it is, none of these is so. All other modes stay as they are. Either mode
/// undoes the other.
pub proof fn law_terminal_modes(lflag: u64, bit: u64)
    requires
        bit < 64,
    ensures
        ({
            let line = bit == 3 || bit == 7 || bit == 8;
            let was = (lflag >> bit) & 1 == 1;
            &&& (canon_mode(lflag) >> bit) & 1 == 1 <==> was || line
            &&& (raw_mode(lflag) >> bit) & 1 == 1 <==> was && !line
            &&& canon_mode(raw_mode(lflag)) == canon_mode(lflag)
            &&& raw_mode(canon_mode(lflag)) == raw_mode(lflag)
        }),
{
    law_modes(lflag);
    assert(((lflag | 0x188) >> bit) & 1 == 1 <==> (lflag >> bit) & 1 == 1 || bit == 3 || bit == 7
        || bit == 8) by (bit_vector)
        requires
            bit < 64,
    ;
    assert(((lflag & !0x188) >> bit) & 1 == 1 <==> (lflag >> bit) & 1 == 1 && !(bit == 3 || bit == 7
        || bit == 8)) by (bit_vector)
        requires
            bit < 64,
    ;
}

/// The mode is changed exactly if it could be read and set, else the first failure is
/// told. Reading is made not to wait by raising the flag of that, and to wait by lowering
/// it.
pub proof fn law_mode_is_changed(read: Result<(), Error>, set: Result<(), Error>)
    ensures
        mode_changed(read, set) is Ok <==> read is Ok && set is Ok,
        read is Err ==> mode_changed(read, set) == read,
        read is Ok && set is Err ==> mode_changed(read, set) == set,
        blocking_change(true) == FlagChange::Raise(4),
        blocking_change(false) == FlagChange::Lower(4),
{
}

} // verus!

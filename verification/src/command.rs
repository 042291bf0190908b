//! The command line's platform part, and what is done when the program panics.

use vstd::prelude::*;

verus! {

/// Why a device is not run on its own.
pub fn start_device() -> (r: Result<(), &'static str>)
    ensures
        r matches Err(e) && e@ == "Device subcommands not yet supported on macOS"@,
{
    Err("Device subcommands not yet supported on macOS")
}

/// Why a command of this platform is not run.
pub fn run_command() -> (r: Result<(), &'static str>)
    ensures
        r matches Err(e) && e@ == "Platform-specific commands not yet supported on macOS"@,
{
    Err("Platform-specific commands not yet supported on macOS")
}

/// The exit code of a run that failed.
pub fn error_to_exit_code() -> (code: i32)
    ensures
        code == 1,
{
    1
}

/// What is done when the program panics.
#[derive(Clone, Copy, Debug, PartialEq, Eq, Structural)]
pub enum PanicStep {
    /// Keep a copy of the error output.
    KeepErrorOutput,
    /// Make a pipe.
    MakePipe,
    /// Make the pipe the error output.
    Redirect,
    /// Note that the error output could not be captured.
    LogCaptureFailure,
    /// Ask for a backtrace and report the panic as usual.
    Report { captured: bool },
    /// Make the copy the error output again.
    Restore,
    /// Note that the error output could not be restored.
    LogRestoreFailure,
    /// Log what was captured, line by line.
    LogLines,
    /// Abort the program.
    Abort,
}

/// The step after another, which may have failed.
pub open spec fn panic_next(step: PanicStep, ok: bool) -> PanicStep {
    match step {
        PanicStep::KeepErrorOutput => if ok {
            PanicStep::MakePipe
        } else {
            PanicStep::LogCaptureFailure
        },
        PanicStep::MakePipe => if ok {
            PanicStep::Redirect
        } else {
            PanicStep::LogCaptureFailure
        },
        PanicStep::Redirect => if ok {
            PanicStep::Report { captured: true }
        } else {
            PanicStep::LogCaptureFailure
        },
        PanicStep::LogCaptureFailure => PanicStep::Report { captured: false },
        PanicStep::Report { captured } => if captured {
            PanicStep::Restore
        } else {
            PanicStep::Abort
        },
        PanicStep::Restore => if ok {
            PanicStep::LogLines
        } else {
            PanicStep::LogRestoreFailure
        },
        PanicStep::LogRestoreFailure => PanicStep::Abort,
        PanicStep::LogLines => PanicStep::Abort,
        PanicStep::Abort => PanicStep::Abort,
    }
}

/// The first step.
pub open spec fn panic_first() -> PanicStep {
    PanicStep::KeepErrorOutput
}

impl PanicStep {
    /// The first step.
    pub fn first() -> (step: PanicStep)
        ensures
            step == panic_first(),
    {
        PanicStep::KeepErrorOutput
    }

    /// The step after this one, which may have failed.
    pub fn after(self, ok: bool) -> (next: PanicStep)
        ensures
            next == panic_next(self, ok),
    {
        match self {
            PanicStep::KeepErrorOutput => if ok {
                PanicStep::MakePipe
            } else {
                PanicStep::LogCaptureFailure
            },
            PanicStep::MakePipe => if ok {
                PanicStep::Redirect
            } else {
                PanicStep::LogCaptureFailure
            },
            PanicStep::Redirect => if ok {
                PanicStep::Report { captured: true }
            } else {
                PanicStep::LogCaptureFailure
            },
            PanicStep::LogCaptureFailure => PanicStep::Report { captured: false },
            PanicStep::Report { captured } => if captured {
                PanicStep::Restore
            } else {
                PanicStep::Abort
            },
            PanicStep::Restore => if ok {
                PanicStep::LogLines
            } else {
                PanicStep::LogRestoreFailure
            },
            PanicStep::LogRestoreFailure => PanicStep::Abort,
            PanicStep::LogLines => PanicStep::Abort,
            PanicStep::Abort => PanicStep::Abort,
        }
    }
}

/// The step after as many others as `oks` tells of.
pub open spec fn panic_run(oks: Seq<bool>) -> PanicStep
    decreases oks.len(),
{
    if oks.len() == 0 {
        panic_first()
    } else {
        panic_next(panic_run(oks.drop_last()), oks.last())
    }
}

/// Whatever fails, the panic is reported and the program aborts within six
/// steps.
pub proof fn law_panics_are_reported(oks: Seq<bool>)
    requires
        oks.len() == 6,
    ensures
        panic_run(oks) == PanicStep::Abort,
        exists|n: int| 0 < n < 6 && #[trigger] panic_run(oks.take(n)) is Report,
{
    reveal_with_fuel(panic_run, 7);
    assert(oks.drop_last() =~= oks.take(5));
    assert(oks.take(5).drop_last() =~= oks.take(4));
    assert(oks.take(4).drop_last() =~= oks.take(3));
    assert(oks.take(3).drop_last() =~= oks.take(2));
    assert(oks.take(2).drop_last() =~= oks.take(1));
    assert(oks.take(1).drop_last() =~= oks.take(0));
    let n: int = if !oks[0] {
        2
    } else if !oks[1] {
        3
    } else if !oks[2] {
        4
    } else {
        3
    };
    assert(panic_run(oks.take(n)) is Report);
}

/// What is done when the program panics, step by step: where nothing fails, the error
/// output is kept and captured, the panic is reported, the error output is restored and
/// what was captured is logged. Where it cannot be captured, that is noted and the panic is
/// reported all the same; where it cannot be restored, that is noted. Then the program
/// aborts.
pub proof fn law_panic_step_by_step(ok: bool)
    ensures
        panic_first() == PanicStep::KeepErrorOutput,
        panic_next(PanicStep::KeepErrorOutput, true) == PanicStep::MakePipe,
        panic_next(PanicStep::MakePipe, true) == PanicStep::Redirect,
        panic_next(PanicStep::Redirect, true) == (PanicStep::Report { captured: true }),
        panic_next(PanicStep::KeepErrorOutput, false) == PanicStep::LogCaptureFailure,
        panic_next(PanicStep::MakePipe, false) == PanicStep::LogCaptureFailure,
        panic_next(PanicStep::Redirect, false) == PanicStep::LogCaptureFailure,
        panic_next(PanicStep::LogCaptureFailure, ok) == (PanicStep::Report { captured: false }),
        panic_next(PanicStep::Report { captured: true }, ok) == PanicStep::Restore,
        panic_next(PanicStep::Report { captured: false }, ok) == PanicStep::Abort,
        panic_next(PanicStep::Restore, true) == PanicStep::LogLines,
        panic_next(PanicStep::Restore, false) == PanicStep::LogRestoreFailure,
        panic_next(PanicStep::LogLines, ok) == PanicStep::Abort,
        panic_next(PanicStep::LogRestoreFailure, ok) == PanicStep::Abort,
        panic_next(PanicStep::Abort, ok) == PanicStep::Abort,
{
}

} // verus!

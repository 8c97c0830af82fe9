//! The signals that a fault handler is installed for, and the exit codes that
//! carry a signal from a dying process to the one that waits for it.
//!
//! The numbers are those of Linux on x86 and ARM.

use vstd::prelude::*;

verus! {

/// A process that dies of signal `n` in its own handler exits with `SIGNAL_EXIT_BASE + n`.
pub const SIGNAL_EXIT_BASE: i32 = 128;

/// Exit codes at or above this one do not stand for a signal.
pub const SIGNAL_EXIT_END: i32 = 160;

/// The number of the alarm signal, which an expired timer sends.
pub const SIGALRM: i32 = 14;

/// The number of the second user signal, which also announces a timeout.
pub const SIGUSR2: i32 = 12;

/// The exit code of a process that timed out inside a trial it ran itself.
pub const TIMEOUT_EXIT_CODE: i32 = 55;

/// A signal that the fault handlers catch.
#[derive(Clone, Copy, Debug, PartialEq, Eq, Structural)]
pub enum Signal {
    /// An expired timer.
    SigAlarm,
    /// A timeout announced by another process.
    SigUser2,
    /// `abort` was called.
    SigAbort,
    /// A bus error.
    SigBus,
    /// A write to a pipe that nobody reads.
    SigPipe,
    /// An arithmetic fault.
    SigFloatingPointException,
    /// An instruction that the processor refuses.
    SigIllegalInstruction,
    /// An access to memory that is not mapped.
    SigSegmentationFault,
    /// A breakpoint.
    SigTrap,
}

/// The number by which the operating system knows the signal.
pub open spec fn spec_number(signal: Signal) -> i32 {
    match signal {
        Signal::SigAlarm => 14,
        Signal::SigUser2 => 12,
        Signal::SigAbort => 6,
        Signal::SigBus => 7,
        Signal::SigPipe => 13,
        Signal::SigFloatingPointException => 8,
        Signal::SigIllegalInstruction => 4,
        Signal::SigSegmentationFault => 11,
        Signal::SigTrap => 5,
    }
}

/// Whether the number is that of a signal which announces a timeout.
pub open spec fn spec_is_timeout_number(number: int) -> bool {
    number == SIGALRM || number == SIGUSR2
}

/// The signals for which the handlers are installed, in the order of installation.
pub open spec fn spec_signals() -> Seq<Signal> {
    seq![
        Signal::SigAlarm,
        Signal::SigUser2,
        Signal::SigAbort,
        Signal::SigBus,
        Signal::SigPipe,
        Signal::SigFloatingPointException,
        Signal::SigIllegalInstruction,
        Signal::SigSegmentationFault,
        Signal::SigTrap,
    ]
}

impl Signal {
    /// The number by which the operating system knows the signal.
    pub fn number(self) -> (number: i32)
        ensures
            number == spec_number(self),
            0 < number < 32,
    {
        match self {
            Signal::SigAlarm => SIGALRM,
            Signal::SigUser2 => SIGUSR2,
            Signal::SigAbort => 6,
            Signal::SigBus => 7,
            Signal::SigPipe => 13,
            Signal::SigFloatingPointException => 8,
            Signal::SigIllegalInstruction => 4,
            Signal::SigSegmentationFault => 11,
            Signal::SigTrap => 5,
        }
    }

    /// The signal with the given number, if the handlers catch it.
    pub fn from_number(number: i32) -> (signal: Option<Signal>)
        ensures
            match signal {
                Some(s) => spec_number(s) == number,
                None => forall|s: Signal| spec_number(s) != number,
            },
    {
        if number == SIGALRM {
            Some(Signal::SigAlarm)
        } else if number == SIGUSR2 {
            Some(Signal::SigUser2)
        } else if number == 6 {
            Some(Signal::SigAbort)
        } else if number == 7 {
            Some(Signal::SigBus)
        } else if number == 13 {
            Some(Signal::SigPipe)
        } else if number == 8 {
            Some(Signal::SigFloatingPointException)
        } else if number == 4 {
            Some(Signal::SigIllegalInstruction)
        } else if number == 11 {
            Some(Signal::SigSegmentationFault)
        } else if number == 5 {
            Some(Signal::SigTrap)
        } else {
            None
        }
    }

    /// Whether the signal announces a timeout rather than a crash.
    pub fn is_timeout(self) -> (timeout: bool)
        ensures
            timeout == (self == Signal::SigAlarm || self == Signal::SigUser2),
            timeout == spec_is_timeout_number(spec_number(self) as int),
    {
        match self {
            Signal::SigAlarm => true,
            Signal::SigUser2 => true,
            _ => false,
        }
    }

    /// The exit code of a process that ends itself in the handler of this signal.
    pub fn exit_code(self) -> (code: i32)
        ensures
            code == SIGNAL_EXIT_BASE + spec_number(self),
            SIGNAL_EXIT_BASE < code < SIGNAL_EXIT_END,
    {
        SIGNAL_EXIT_BASE + self.number()
    }
}

/// The signals for which the handlers are installed, in the order of installation.
pub fn signals() -> (list: Vec<Signal>)
    ensures
        list@ == spec_signals(),
{
    let list = vec![
        Signal::SigAlarm,
        Signal::SigUser2,
        Signal::SigAbort,
        Signal::SigBus,
        Signal::SigPipe,
        Signal::SigFloatingPointException,
        Signal::SigIllegalInstruction,
        Signal::SigSegmentationFault,
        Signal::SigTrap,
    ];
    assert(list@ =~= spec_signals());
    list
}

/// Every signal is installed, and no two signals share a number.
pub proof fn lemma_signal_numbers(a: Signal, b: Signal)
    ensures
        spec_signals().contains(a),
        spec_number(a) == spec_number(b) ==> a == b,
{
    let list = spec_signals();
    assert(list[0] == Signal::SigAlarm);
    assert(list[1] == Signal::SigUser2);
    assert(list[2] == Signal::SigAbort);
    assert(list[3] == Signal::SigBus);
    assert(list[4] == Signal::SigPipe);
    assert(list[5] == Signal::SigFloatingPointException);
    assert(list[6] == Signal::SigIllegalInstruction);
    assert(list[7] == Signal::SigSegmentationFault);
    assert(list[8] == Signal::SigTrap);
}

} // verus!

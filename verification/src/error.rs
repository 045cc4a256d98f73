use vstd::prelude::*;

verus! {

/// Every failure the library reports.
///
/// `DivideFault` is recoverable: a run skips the faulting instruction and
/// continues. Every other kind aborts the run.
#[derive(Clone, Copy, Debug, PartialEq, Eq, Structural)]
pub enum SsError {
    /// A text mnemonic (opcode or register) that names nothing.
    InvalidMnemonic,
    /// An opcode tag that maps to no defined operation.
    UnknownOpcode,
    /// A zero divisor in a lane of Div/Mod, or zero `data` in Ddiv/Dmod.
    DivideFault,
    /// A branch target before index 0 or past the end of the program.
    ProgramCounterOutOfRange,
}

/// A run that stopped on an error: the kind together with the index of the
/// instruction that faulted.
#[derive(Clone, Copy, Debug, PartialEq, Eq, Structural)]
pub struct RunError {
    pub kind: SsError,
    pub at: u64,
}

/// How a bounded run ended when nothing aborted it: the program counter ran
/// off the end of the program, or the step budget ran out first.
#[derive(Clone, Copy, Debug, PartialEq, Eq, Structural)]
pub enum RunStatus {
    Halted,
    Exhausted,
}

} // verus!

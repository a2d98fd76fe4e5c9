//! Decoded-code facades, as the dispatch layer sees them.
//!
//! Instruction and instruction-list views over host handles are
//! collaborators outside this crate (insertion, removal, clean-call
//! injection all go through the host); here they are the plain handle pairs
//! the code-region adapters reconstruct and hand to the handler for the
//! duration of the call.

use vstd::prelude::*;

verus! {

/// A single decoded instruction: the execution-context handle it belongs to
/// and the instruction handle itself.
#[derive(Clone, Copy, Debug, Eq, PartialEq, Structural)]
pub struct Instruction {
    pub context: u64,
    pub raw: u64,
}

impl Instruction {
    /// Reconstructs the view from the raw handles delivered by the host.
    pub fn from_raw(context: u64, raw: u64) -> (r: Self)
        ensures
            r.context == context,
            r.raw == raw,
    {
        Instruction { context, raw }
    }

    /// The raw instruction handle.
    pub fn raw(&self) -> (r: u64)
        ensures
            r == self.raw,
    {
        self.raw
    }
}

/// The operand-shape rule of the instruction builder: the host-side
/// constructors cover exactly one target operand together with one or two
/// source operands; a request of any other shape yields no instruction,
/// which the builder reports as an absent result rather than an error.
pub fn instruction_shape_supported(targets: usize, sources: usize) -> (r: bool)
    ensures
        r == (targets == 1 && (sources == 1 || sources == 2)),
{
    targets == 1 && (sources == 1 || sources == 2)
}

/// A code region (basic block or trace) under analysis or instrumentation.
#[derive(Clone, Copy, Debug, Eq, PartialEq, Structural)]
pub struct InstructionList {
    pub context: u64,
    pub raw: u64,
}

impl InstructionList {
    /// Reconstructs the view from the raw handles delivered by the host.
    pub fn from_raw(context: u64, raw: u64) -> (r: Self)
        ensures
            r.context == context,
            r.raw == raw,
    {
        InstructionList { context, raw }
    }
}

} // verus!

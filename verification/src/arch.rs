//! Building a disassembler step by step.

use vstd::prelude::*;

pub mod x86;

verus! {

/// The first step: choose the architecture.
#[derive(Clone, Copy, Debug, PartialEq, Eq, Hash, Structural)]
pub struct CapstoneBuilder;

impl CapstoneBuilder {
    /// Starts to build a disassembler.
    pub fn new() -> (r: CapstoneBuilder)
        ensures
            r == CapstoneBuilder,
    {
        CapstoneBuilder
    }

    /// Chooses x86.
    pub fn x86(self) -> (r: x86::ArchBuilder)
        ensures
            r == x86::ArchBuilder,
    {
        x86::ArchBuilder
    }
}

} // verus!

//! Building a disassembler for x86.

use crate::capstone::{Capstone, NO_EXTRA_MODE};
use crate::constants::{Arch, ExtraMode, Mode};
use crate::engine::opened;
use crate::error::CsResult;
use crate::session::open_mode;
use vstd::prelude::*;

verus! {

/// A mode of x86.
#[derive(Clone, Copy, Debug, PartialEq, Eq, Hash, Structural)]
pub enum ArchMode {
    /// 16-bit.
    Mode16,
    /// 32-bit.
    Mode32,
    /// 64-bit.
    Mode64,
}

impl ArchMode {
    /// The mode among those of all architectures.
    pub open spec fn spec_mode(self) -> Mode {
        match self {
            ArchMode::Mode16 => Mode::Mode16,
            ArchMode::Mode32 => Mode::Mode32,
            ArchMode::Mode64 => Mode::Mode64,
        }
    }

    /// The mode among those of all architectures.
    #[verifier::when_used_as_spec(spec_mode)]
    pub fn mode(self) -> (r: Mode)
        ensures
            r == self.spec_mode(),
    {
        match self {
            ArchMode::Mode16 => Mode::Mode16,
            ArchMode::Mode32 => Mode::Mode32,
            ArchMode::Mode64 => Mode::Mode64,
        }
    }
}

/// The second step: choose the mode.
#[derive(Clone, Copy, Debug, PartialEq, Eq, Hash, Structural)]
pub struct ArchBuilder;

impl ArchBuilder {
    /// Chooses the mode.
    pub fn mode(self, mode: ArchMode) -> (r: ArchCapstoneBuilder)
        ensures
            r == (ArchCapstoneBuilder { mode }),
    {
        ArchCapstoneBuilder { mode }
    }
}

/// The last step: open the engine.
#[derive(Clone, Copy, Debug, PartialEq, Eq, Hash, Structural)]
pub struct ArchCapstoneBuilder {
    /// The mode.
    pub mode: ArchMode,
}

impl ArchCapstoneBuilder {
    /// Opens an engine for x86 in the chosen mode, as [`Capstone::new_raw`] does without extra
    /// modes and with the byte order left to the engine.
    pub fn build<F: FnOnce(Arch, i32) -> (u32, usize)>(self, cs_open: F) -> (r: CsResult<Capstone>)
        requires
            call_requires(
                cs_open,
                (Arch::X86, open_mode(self.mode.mode(), Seq::<ExtraMode>::empty(), None)),
            ),
        ensures
            opened(
                Arch::X86,
                self.mode.mode(),
                Seq::empty(),
                None,
                cs_open,
                match r {
                    Ok(cs) => Ok(cs@),
                    Err(e) => Err(e),
                },
            ),
            r matches Ok(cs) ==> cs.wf(),
    {
        Capstone::new_raw(Arch::X86, self.mode.mode(), NO_EXTRA_MODE, None, cs_open)
    }
}

} // verus!

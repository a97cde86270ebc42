//! What an open engine is set to, as mathematics.
//!
//! A [`Session`] is the view of a [`Capstone`](crate::Capstone). A [`Change`] is a request to set
//! one of its settings: it says which call of the engine's option function it makes, and what the
//! session is for each code that the call can answer with.

use crate::constants::{Arch, Endian, ExtraMode, Mode, OptType, Syntax};
use crate::constants::{CS_MODE_32, CS_MODE_MIPS32R6, CS_OPT_OFF, CS_OPT_ON, CS_OPT_SYNTAX_DEFAULT};
use crate::error::{cs_result, CsResult, CS_ERR_OK};
use vstd::prelude::*;

verus! {

/// What an open engine is set to.
pub struct Session {
    /// The engine's handle.
    pub handle: usize,
    /// The architecture.
    pub arch: Arch,
    /// The bits of the disassembly mode.
    pub mode: i32,
    /// The bits of the byte order.
    pub endian: i32,
    /// The bits of the extra modes.
    pub extra_mode: i32,
    /// The option value of the assembly syntax.
    pub syntax: u32,
    /// Whether instructions come with details.
    pub detail: bool,
}

/// The bits of the extra modes `modes`, combined.
pub open spec fn extra_mode_bits(modes: Seq<ExtraMode>) -> i32 {
    modes.fold_left(0i32, |acc: i32, m: ExtraMode| acc | m.bits())
}

/// The bits of a byte order that may be left to the engine.
pub open spec fn endian_bits(endian: Option<Endian>) -> i32 {
    match endian {
        Some(e) => e.bits(),
        None => 0,
    }
}

/// The mode bits that an engine is opened with.
pub open spec fn open_mode(mode: Mode, extra_modes: Seq<ExtraMode>, endian: Option<Endian>) -> i32 {
    mode.bits() | endian_bits(endian) | extra_mode_bits(extra_modes)
}

/// The option value that switches an option on or off.
pub open spec fn switch_value(on: bool) -> u32 {
    if on {
        CS_OPT_ON
    } else {
        CS_OPT_OFF
    }
}

impl Session {
    /// The session of an engine that was just opened: default syntax, and no details.
    pub open spec fn opened(
        handle: usize,
        arch: Arch,
        mode: Mode,
        extra_modes: Seq<ExtraMode>,
        endian: Option<Endian>,
    ) -> Session {
        Session {
            handle,
            arch,
            mode: mode.bits(),
            endian: endian_bits(endian),
            extra_mode: extra_mode_bits(extra_modes),
            syntax: CS_OPT_SYNTAX_DEFAULT,
            detail: false,
        }
    }

    /// The mode bits that the engine works with: mode, extra modes and byte order together.
    pub open spec fn raw_mode(self) -> i32 {
        self.mode | self.extra_mode | self.endian
    }

    /// Whether setting extra modes has to set the 32-bit base mode along with them. The engine
    /// decodes Mips32r6 as 64-bit code unless that bit is there.
    pub open spec fn forces_mode_32(self) -> bool {
        self.arch == Arch::MIPS && self.mode == CS_MODE_MIPS32R6
    }

    /// The value of the option `kind`, as it is handed to the engine.
    pub open spec fn option_value(self, kind: OptType) -> usize {
        match kind {
            OptType::Mode => self.raw_mode() as usize,
            OptType::Syntax => self.syntax as usize,
            OptType::Detail => switch_value(self.detail) as usize,
        }
    }
}

/// A request to change what an engine is set to.
pub enum Change {
    /// Set the disassembly mode.
    Mode(Mode),
    /// Set the byte order.
    Endian(Endian),
    /// Set the extra modes, in place of the present ones.
    ExtraMode(Seq<ExtraMode>),
    /// Set the assembly syntax.
    Syntax(Syntax),
    /// Switch details on or off.
    Detail(bool),
}

impl Change {
    /// The option of the engine that the change sets.
    pub open spec fn kind(self) -> OptType {
        match self {
            Change::Mode(_) | Change::Endian(_) | Change::ExtraMode(_) => OptType::Mode,
            Change::Syntax(_) => OptType::Syntax,
            Change::Detail(_) => OptType::Detail,
        }
    }

    /// The session `s` with the change made.
    pub open spec fn applied(self, s: Session) -> Session {
        match self {
            Change::Mode(mode) => Session { mode: mode.bits(), ..s },
            Change::Endian(endian) => Session { endian: endian.bits(), ..s },
            Change::ExtraMode(modes) => Session {
                extra_mode: if s.forces_mode_32() {
                    extra_mode_bits(modes) | CS_MODE_32
                } else {
                    extra_mode_bits(modes)
                },
                ..s
            },
            Change::Syntax(syntax) => Session { syntax: syntax.code(), ..s },
            Change::Detail(on) => Session { detail: on, ..s },
        }
    }

    /// What the change hands to the engine's option function: the handle, the option, its value.
    pub open spec fn call(self, s: Session) -> (usize, OptType, usize) {
        (s.handle, self.kind(), self.applied(s).option_value(self.kind()))
    }

    /// The session after the change was tried on `s` and the engine answered with `code`.
    pub open spec fn outcome(self, s: Session, code: u32) -> Session {
        if code == CS_ERR_OK {
            self.applied(s)
        } else {
            s
        }
    }

    /// The change was tried on `before`: the option function `cs_option` was handed what
    /// [`Change::call`] says, and `after` and `r` are what its answer makes of the session and of
    /// the result.
    pub open spec fn tried<F: FnOnce(usize, OptType, usize) -> u32>(
        self,
        cs_option: F,
        before: Session,
        after: Session,
        r: CsResult<()>,
    ) -> bool {
        exists|code: u32|
            {
                &&& #[trigger] call_ensures(cs_option, self.call(before), code)
                &&& after == self.outcome(before, code)
                &&& r == cs_result(code)
            }
    }
}

} // verus!

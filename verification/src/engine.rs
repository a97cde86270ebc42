//! What is asked of the engine, and what its answers come to.
//!
//! The engine is a library of its own that this crate does not link. An operation that needs it
//! takes the engine's function as an argument, calls it at most once, and makes of the answer what
//! the predicates here say.

use crate::constants::{Arch, Endian, ExtraMode, Mode, CS_SUPPORT_DIET};
use crate::error::{cs_result, CapstoneError, CsResult, Error};
use crate::instruction::{Insn, Instructions, RegsAccess, REGS_BUFFER};
use crate::session::{open_mode, Session};
use crate::text::lossy_text;
use vstd::prelude::*;
use vstd::utf8::{decode_utf8, valid_utf8};

verus! {

/// An engine was to be opened, and `r` is what its answer comes to: a session that starts with the
/// handle it answered with, or the error that its code stands for.
///
/// `cs_open` was handed the architecture and the combined mode bits.
pub open spec fn opened<F: FnOnce(Arch, i32) -> (u32, usize)>(
    arch: Arch,
    mode: Mode,
    extra_modes: Seq<ExtraMode>,
    endian: Option<Endian>,
    cs_open: F,
    r: CsResult<Session>,
) -> bool {
    exists|reply: (u32, usize)|
        {
            &&& #[trigger] call_ensures(
                cs_open,
                (arch, open_mode(mode, extra_modes, endian)),
                reply,
            )
            &&& match cs_result(reply.0) {
                Ok(_) => r == Ok::<Session, Error>(
                    Session::opened(reply.1, arch, mode, extra_modes, endian),
                ),
                Err(e) => r == Err::<Session, Error>(e),
            }
        }
}

/// The engine can be asked to disassemble: `cs_disasm` can be handed the handle, the code, the
/// address and the count, and where it finds no instructions, and only there, `cs_errno` can be
/// asked for the code of the last error.
pub open spec fn disasm_ready<
    D: FnOnce(usize, &[u8], u64, usize) -> Vec<Insn>,
    E: FnOnce(usize) -> u32,
>(
    handle: usize,
    code: &[u8],
    addr: u64,
    count: usize,
    cs_disasm: D,
    cs_errno: E,
) -> bool {
    &&& call_requires(cs_disasm, (handle, code, addr, count))
    &&& forall|insns: Vec<Insn>|
        #[trigger] call_ensures(cs_disasm, (handle, code, addr, count), insns) && insns@.len() == 0
            ==> call_requires(cs_errno, (handle,))
}

/// The engine was asked to disassemble, and `r` is what its answer comes to.
///
/// `cs_disasm` was handed the handle, the code, the address and the count. Where it found
/// instructions they are the result. Where it found none, `cs_errno` was asked for the code of the
/// last error, and that decides between no instructions and an error.
pub open spec fn disassembled<
    D: FnOnce(usize, &[u8], u64, usize) -> Vec<Insn>,
    E: FnOnce(usize) -> u32,
>(
    handle: usize,
    code: &[u8],
    addr: u64,
    count: usize,
    cs_disasm: D,
    cs_errno: E,
    r: CsResult<Instructions>,
) -> bool {
    exists|insns: Vec<Insn>|
        {
            &&& #[trigger] call_ensures(cs_disasm, (handle, code, addr, count), insns)
            &&& if insns@.len() > 0 {
                r matches Ok(found) && found@ == insns@
            } else {
                exists|errno: u32|
                    {
                        &&& #[trigger] call_ensures(cs_errno, (handle,), errno)
                        &&& match cs_result(errno) {
                            Ok(_) => r matches Ok(found) && found@.len() == 0,
                            Err(e) => r == Err::<Instructions, Error>(e),
                        }
                    }
            }
        }
}

/// What keeps the details of an instruction from being read, if anything does: details are off,
/// the instruction stands for bytes skipped as data, or the engine was built in diet mode.
pub open spec fn detail_error(s: Session, insn: Insn, diet: bool) -> Option<CapstoneError> {
    if !s.detail {
        Some(CapstoneError::DetailOff)
    } else if insn.id == 0 {
        Some(CapstoneError::IrrelevantDataInSkipData)
    } else if diet {
        Some(CapstoneError::IrrelevantDataInDiet)
    } else {
        None
    }
}

/// Whether the engine has to be asked for diet mode before the details of `insn` can be read.
pub open spec fn asks_diet(s: Session, insn: Insn) -> bool {
    s.detail && insn.id != 0
}

/// The details of `insn` can be read where the engine answers that it was not built in diet mode.
/// Nothing but the answer of `cs_support` tells that it does.
pub open spec fn detail_granted<S: FnOnce(i32) -> bool>(
    s: Session,
    insn: Insn,
    cs_support: S,
) -> bool {
    asks_diet(s, insn) && call_ensures(cs_support, (CS_SUPPORT_DIET,), false)
}

/// The engine can be asked for diet mode where that matters, and `insn` carries the details that a
/// session which takes them to be there would read.
pub open spec fn detail_ready<S: FnOnce(i32) -> bool>(
    s: Session,
    insn: Insn,
    cs_support: S,
) -> bool {
    &&& asks_diet(s, insn) ==> call_requires(cs_support, (CS_SUPPORT_DIET,))
    &&& detail_granted(s, insn, cs_support) ==> insn.detail is Some
}

/// The details of `insn` were asked for, and `error` is what keeps them from being read. The
/// engine is asked for diet mode only where that still matters.
pub open spec fn detail_asked<S: FnOnce(i32) -> bool>(
    s: Session,
    insn: Insn,
    cs_support: S,
    error: Option<CapstoneError>,
) -> bool {
    if asks_diet(s, insn) {
        exists|diet: bool|
            {
                &&& #[trigger] call_ensures(cs_support, (CS_SUPPORT_DIET,), diet)
                &&& error == detail_error(s, insn, diet)
            }
    } else {
        error == detail_error(s, insn, false)
    }
}

/// A value that is part of the details of `insn` was asked for, and `r` is the value, or the error
/// that keeps the details from being read.
pub open spec fn detail_read<S: FnOnce(i32) -> bool, T>(
    s: Session,
    insn: Insn,
    cs_support: S,
    value: T,
    r: CsResult<T>,
) -> bool {
    match r {
        Ok(v) => {
            &&& detail_asked(s, insn, cs_support, None)
            &&& insn.detail is Some
            &&& v == value
        },
        Err(e) => e matches Error::Capstone(c) && detail_asked(s, insn, cs_support, Some(c)),
    }
}

/// The engine can be asked whether `id` is among the details of `insn`: `cs_query` can be called
/// once the details are known to be readable, and need not be callable anywhere else.
pub open spec fn query_ready<S: FnOnce(i32) -> bool, Q: FnOnce(usize, &Insn, u32) -> bool>(
    s: Session,
    insn: &Insn,
    id: u32,
    cs_support: S,
    cs_query: Q,
) -> bool {
    &&& detail_ready(s, *insn, cs_support)
    &&& detail_granted(s, *insn, cs_support) ==> call_requires(cs_query, (s.handle, insn, id))
}

/// The engine was asked whether `id` is among the details of `insn`, and `r` is its answer, or the
/// error that keeps the details from being read.
pub open spec fn query_answered<S: FnOnce(i32) -> bool, Q: FnOnce(usize, &Insn, u32) -> bool>(
    s: Session,
    insn: &Insn,
    id: u32,
    cs_support: S,
    cs_query: Q,
    r: CsResult<bool>,
) -> bool {
    match r {
        Ok(answer) => {
            &&& detail_asked(s, *insn, cs_support, None)
            &&& call_ensures(cs_query, (s.handle, insn, id), answer)
        },
        Err(e) => e matches Error::Capstone(c) && detail_asked(s, *insn, cs_support, Some(c)),
    }
}

/// The engine was asked which registers `insn` accesses, and answered with `reply`. The buffers it
/// was handed have [`REGS_BUFFER`] entries, all 0.
pub open spec fn access_asked<
    A: FnOnce(usize, &Insn, [u16; REGS_BUFFER], [u16; REGS_BUFFER]) -> RegsAccess,
>(
    handle: usize,
    insn: &Insn,
    cs_regs_access: A,
    reply: RegsAccess,
) -> bool {
    exists|read: [u16; REGS_BUFFER], write: [u16; REGS_BUFFER]|
        {
            &&& #[trigger] call_ensures(cs_regs_access, (handle, insn, read, write), reply)
            &&& read@ == zeros()
            &&& write@ == zeros()
        }
}

/// The contents of an unused register buffer.
pub open spec fn zeros() -> Seq<u16> {
    Seq::new(REGS_BUFFER as nat, |i: int| 0u16)
}

/// The engine was asked for a name, and `r` is what its answer comes to: nothing where the engine
/// has no name, and else the text of the bytes.
pub open spec fn named<N: FnOnce(usize, u32) -> Option<Vec<u8>>>(
    handle: usize,
    id: u32,
    cs_name: N,
    r: Option<String>,
) -> bool {
    exists|bytes: Option<Vec<u8>>|
        {
            &&& #[trigger] call_ensures(cs_name, (handle, id), bytes)
            &&& match bytes {
                Some(b) => {
                    &&& r matches Some(s)
                    &&& s@ == lossy_text(b@)
                    &&& valid_utf8(b@) ==> s@ == decode_utf8(b@)
                },
                None => r is None,
            }
        }
}

/// The engine was closed: `cs_close` was handed the handle. Its error code is ignored.
pub open spec fn closed<C: FnOnce(usize) -> u32>(handle: usize, cs_close: C) -> bool {
    exists|code: u32| #[trigger] call_ensures(cs_close, (handle,), code)
}

} // verus!

//! What each operation does, in terms of what it is given, what the engine answers and what comes
//! out.
//!
//! The contracts of the operations are made of the predicates of [`engine`](crate::engine) and
//! [`session`](crate::session). The laws here say what these come to, bit by bit and entry by
//! entry.

use crate::arch::x86::ArchMode;
use crate::capstone::EmptyExtraModeIter;
use crate::constants::{
    Arch, Endian, ExtraMode, Mode, OptType, Syntax, CS_MODE_32, CS_SUPPORT_DIET,
};
use crate::engine::{
    access_asked, closed, detail_asked, detail_read, detail_ready, disasm_ready, disassembled,
    named, opened, query_answered, query_ready, zeros,
};
use crate::error::{cs_result, CapstoneError, CsResult, Error};
use crate::instruction::{group_ids, reg_ids};
use crate::instruction::{Insn, InsnGroupIter, Instructions, RegsAccess, RegsIter};
use crate::session::{endian_bits, extra_mode_bits, open_mode, Change, Session};
use crate::text::lossy_text;
use vstd::prelude::*;
use vstd::std_specs::iter::IteratorSpec;
use vstd::utf8::{decode_utf8, valid_utf8};

verus! {

/// A combination of bits holds each of its three parts, and no bit that none of them has.
proof fn lemma_combination(a: i32, b: i32, c: i32)
    ensures
        (a | b | c) & a == a,
        (a | b | c) & b == b,
        (a | b | c) & c == c,
        forall|k: i32| k & a == 0 && k & b == 0 && k & c == 0 ==> #[trigger] (k & (a | b | c)) == 0,
{
    assert((a | b | c) & a == a) by (bit_vector);
    assert((a | b | c) & b == b) by (bit_vector);
    assert((a | b | c) & c == c) by (bit_vector);
    assert forall|k: i32| k & a == 0 && k & b == 0 && k & c == 0 implies #[trigger] (k & (a | b
        | c)) == 0 by {
        assert(k & (a | b | c) == 0) by (bit_vector)
            requires
                k & a == 0,
                k & b == 0,
                k & c == 0,
        ;
    }
}

/// Bits that are held by a part are held by the whole.
proof fn lemma_held_through(whole: i32, part: i32, bits: i32)
    by (bit_vector)
    requires
        whole & part == part,
        part & bits == bits,
    ensures
        whole & bits == bits,
{
}

/// Mode bits come back from an option value.
proof fn lemma_option_value(bits: i32)
    by (bit_vector)
    ensures
        (bits as usize) as i32 == bits,
{
}

/// Bits that make up no negative number share none with the sign.
proof fn lemma_not_negative(bits: i32)
    by (bit_vector)
    requires
        bits >= 0,
    ensures
        i32::MIN & bits == 0,
{
}

/// The bits of no extra modes are none, those of one are its own, and those of more are the bits of
/// each of them and no others.
pub proof fn law_extra_mode_bits(modes: Seq<ExtraMode>)
    ensures
        modes.len() == 0 ==> extra_mode_bits(modes) == 0,
        modes.len() == 1 ==> extra_mode_bits(modes) == modes[0].bits(),
        forall|m: ExtraMode| #[trigger]
            modes.contains(m) ==> extra_mode_bits(modes) & m.bits() == m.bits(),
        forall|k: i32|
            (forall|m: ExtraMode| #[trigger] modes.contains(m) ==> k & m.bits() == 0)
                ==> #[trigger] (k & extra_mode_bits(modes)) == 0,
    decreases modes.len(),
{
    let all = extra_mode_bits(modes);
    if modes.len() == 0 {
        assert forall|k: i32| #[trigger] (k & all) == 0 by {
            assert(k & 0 == 0) by (bit_vector);
        }
    } else {
        let front = modes.drop_last();
        let rest = extra_mode_bits(front);
        let last = modes.last().bits();
        law_extra_mode_bits(front);
        assert(all == rest | last);
        assert(0i32 | last == last) by (bit_vector);
        assert forall|m: ExtraMode| #[trigger] modes.contains(m) implies all & m.bits()
            == m.bits() by {
            let bits = m.bits();
            if m == modes.last() {
                assert((rest | last) & last == last) by (bit_vector);
            } else {
                let i = choose|i: int| 0 <= i < modes.len() && modes[i] == m;
                assert(front[i] == m);
                assert(front.contains(m));
                assert((rest | last) & bits == bits) by (bit_vector)
                    requires
                        rest & bits == bits,
                ;
            }
        }
        assert forall|k: i32|
            (forall|m: ExtraMode| #[trigger]
                modes.contains(m) ==> k & m.bits() == 0) implies #[trigger] (k & all) == 0 by {
            assert(modes[modes.len() - 1] == modes.last());
            assert(modes.contains(modes.last()));
            assert forall|m: ExtraMode| #[trigger] front.contains(m) implies k & m.bits() == 0 by {
                let i = choose|i: int| 0 <= i < front.len() && front[i] == m;
                assert(modes[i] == m);
                assert(modes.contains(m));
            }
            assert(k & rest == 0);
            assert(k & (rest | last) == 0) by (bit_vector)
                requires
                    k & rest == 0,
                    k & last == 0,
            ;
        }
    }
}

/// The mode bits that an engine is opened with hold those of the mode, of the byte order and of
/// each extra mode, and no others.
pub proof fn law_open_bits(mode: Mode, extra_modes: Seq<ExtraMode>, endian: Option<Endian>)
    ensures
        open_mode(mode, extra_modes, endian) & mode.bits() == mode.bits(),
        endian matches Some(e) ==> open_mode(mode, extra_modes, endian) & e.bits() == e.bits(),
        forall|m: ExtraMode| #[trigger]
            extra_modes.contains(m) ==> open_mode(mode, extra_modes, endian) & m.bits()
                == m.bits(),
        forall|k: i32|
            k & mode.bits() == 0 && (endian matches Some(e) ==> k & e.bits() == 0) && (forall|
                m: ExtraMode,
            | #[trigger]
                extra_modes.contains(m) ==> k & m.bits() == 0) ==> #[trigger] (k & open_mode(
                mode,
                extra_modes,
                endian,
            )) == 0,
{
    let whole = open_mode(mode, extra_modes, endian);
    let x = extra_mode_bits(extra_modes);
    let e = endian_bits(endian);
    lemma_combination(mode.bits(), e, x);
    law_extra_mode_bits(extra_modes);
    assert forall|m: ExtraMode| #[trigger] extra_modes.contains(m) implies whole & m.bits()
        == m.bits() by {
        lemma_held_through(whole, x, m.bits());
    }
    assert forall|k: i32|
        k & mode.bits() == 0 && (endian matches Some(e) ==> k & e.bits() == 0) && (forall|
            m: ExtraMode,
        | #[trigger]
            extra_modes.contains(m) ==> k & m.bits() == 0) implies #[trigger] (k & whole) == 0 by {
        assert(k & 0 == 0) by (bit_vector);
        assert(k & e == 0);
        assert(k & x == 0);
    }
}

/// Opening an engine asks for the given architecture, with mode bits that hold those of the mode,
/// of the byte order and of each extra mode, and no others. Where the engine answers 0 there is a
/// session with the engine's handle, the same mode bits, the default syntax and details off; where
/// it answers anything else there is the error for that.
pub proof fn law_opening<F: FnOnce(Arch, i32) -> (u32, usize)>(
    arch: Arch,
    mode: Mode,
    extra_modes: Seq<ExtraMode>,
    endian: Option<Endian>,
    cs_open: F,
    r: CsResult<Session>,
)
    requires
        opened(arch, mode, extra_modes, endian, cs_open, r),
    ensures
        exists|bits: i32, reply: (u32, usize)|
            {
                &&& #[trigger] call_ensures(cs_open, (arch, bits), reply)
                &&& bits & mode.bits() == mode.bits()
                &&& endian matches Some(e) ==> bits & e.bits() == e.bits()
                &&& forall|m: ExtraMode| #[trigger]
                    extra_modes.contains(m) ==> bits & m.bits() == m.bits()
                &&& forall|k: i32|
                    k & mode.bits() == 0 && (endian matches Some(e) ==> k & e.bits() == 0) && (
                    forall|m: ExtraMode| #[trigger]
                        extra_modes.contains(m) ==> k & m.bits() == 0) ==> #[trigger] (k & bits)
                        == 0
                &&& match r {
                    Ok(s) => {
                        &&& reply.0 == 0
                        &&& s.handle == reply.1
                        &&& s.arch == arch
                        &&& s.mode == mode.bits()
                        &&& s.endian == match endian {
                            Some(e) => e.bits(),
                            None => 0i32,
                        }
                        &&& forall|m: ExtraMode| #[trigger]
                            extra_modes.contains(m) ==> s.extra_mode & m.bits() == m.bits()
                        &&& forall|k: i32|
                            (forall|m: ExtraMode| #[trigger]
                                extra_modes.contains(m) ==> k & m.bits() == 0) ==> #[trigger] (k
                                & s.extra_mode) == 0
                        &&& s.mode | s.extra_mode | s.endian == bits
                        &&& s.syntax == 0
                        &&& !s.detail
                    },
                    Err(e) => {
                        &&& reply.0 != 0
                        &&& cs_result(reply.0) == Err::<(), Error>(e)
                    },
                }
            },
{
    let bits = open_mode(mode, extra_modes, endian);
    law_open_bits(mode, extra_modes, endian);
    law_extra_mode_bits(extra_modes);
    let (m, e, x) = (mode.bits(), endian_bits(endian), extra_mode_bits(extra_modes));
    assert((m | x) | e == (m | e) | x) by (bit_vector);
    let reply = choose|reply: (u32, usize)|
        {
            &&& #[trigger] call_ensures(cs_open, (arch, bits), reply)
            &&& match cs_result(reply.0) {
                Ok(_) => r == Ok::<Session, Error>(
                    Session::opened(reply.1, arch, mode, extra_modes, endian),
                ),
                Err(e) => r == Err::<Session, Error>(e),
            }
        };
    assert(call_ensures(cs_open, (arch, bits), reply));
}

/// An engine is opened with different mode bits for the two byte orders, whatever else it is opened
/// with.
pub proof fn law_byte_orders_differ(mode: Mode, extra_modes: Seq<ExtraMode>)
    ensures
        open_mode(mode, extra_modes, Some(Endian::Big)) != open_mode(
            mode,
            extra_modes,
            Some(Endian::Little),
        ),
{
    let big = Endian::Big.bits();
    let plain = open_mode(mode, extra_modes, Some(Endian::Little));
    law_open_bits(mode, extra_modes, Some(Endian::Big));
    law_open_bits(mode, extra_modes, Some(Endian::Little));
    lemma_not_negative(mode.bits());
    lemma_not_negative(Endian::Little.bits());
    assert forall|m: ExtraMode| #[trigger] extra_modes.contains(m) implies big & m.bits() == 0 by {
        lemma_not_negative(m.bits());
    }
    assert(big & plain == 0);
    assert(plain & i32::MIN == i32::MIN & plain) by (bit_vector);
}

/// A change sets its own setting and leaves the others, and hands the engine the handle, the option
/// that it sets and a value that stands for the setting.
pub proof fn law_changes_set_what_they_name(
    s: Session,
    mode: Mode,
    endian: Endian,
    syntax: Syntax,
    on: bool,
)
    ensures
        Change::Mode(mode).applied(s) == (Session { mode: mode.bits(), ..s }),
        Change::Mode(mode).call(s).0 == s.handle,
        Change::Mode(mode).call(s).1 == OptType::Mode,
        Change::Mode(mode).call(s).2 as i32 & mode.bits() == mode.bits(),
        Change::Endian(endian).applied(s) == (Session { endian: endian.bits(), ..s }),
        Change::Endian(endian).call(s).0 == s.handle,
        Change::Endian(endian).call(s).1 == OptType::Mode,
        Change::Endian(endian).call(s).2 as i32 & endian.bits() == endian.bits(),
        Change::Syntax(syntax).applied(s) == (Session { syntax: syntax.code(), ..s }),
        Change::Syntax(syntax).call(s) == (s.handle, OptType::Syntax, syntax.code() as usize),
        Change::Detail(on).applied(s) == (Session { detail: on, ..s }),
        Change::Detail(on).call(s).0 == s.handle,
        Change::Detail(on).call(s).1 == OptType::Detail,
        Change::Detail(on).call(s).2 != Change::Detail(!on).call(s).2,
{
    lemma_option_value(mode.bits() | s.extra_mode | s.endian);
    lemma_combination(mode.bits(), s.extra_mode, s.endian);
    lemma_option_value(s.mode | s.extra_mode | endian.bits());
    lemma_combination(s.mode, s.extra_mode, endian.bits());
}

/// Setting the mode hands the engine an option value that holds the bits of that mode beside the
/// byte order and the extra modes of the session, and no others. Where the engine answers 0 the
/// session has the mode and is else the same; where it answers anything else the session stays, and
/// the result is the error for that.
pub proof fn law_set_mode<F: FnOnce(usize, OptType, usize) -> u32>(
    mode: Mode,
    cs_option: F,
    before: Session,
    after: Session,
    r: CsResult<()>,
)
    requires
        Change::Mode(mode).tried(cs_option, before, after, r),
    ensures
        exists|value: usize, code: u32|
            {
                &&& #[trigger] call_ensures(
                    cs_option,
                    (before.handle, OptType::Mode, value),
                    code,
                )
                &&& (value as i32) & mode.bits() == mode.bits()
                &&& value as i32 == mode.bits() | before.extra_mode | before.endian
                &&& value == (value as i32) as usize
                &&& code == 0 ==> r is Ok && after == (Session { mode: mode.bits(), ..before })
                &&& code != 0 ==> after == before && r is Err && r == cs_result(code)
            },
{
    let bits = mode.bits() | before.extra_mode | before.endian;
    let value = bits as usize;
    lemma_option_value(bits);
    lemma_combination(mode.bits(), before.extra_mode, before.endian);
    let change = Change::Mode(mode);
    assert(change.call(before) == (before.handle, OptType::Mode, value));
    let code = choose|code: u32|
        {
            &&& #[trigger] call_ensures(cs_option, change.call(before), code)
            &&& after == change.outcome(before, code)
            &&& r == cs_result(code)
        };
    assert(call_ensures(cs_option, (before.handle, OptType::Mode, value), code));
}

/// Setting the byte order hands the engine an option value that holds the bits of that byte order
/// beside the mode and the extra modes of the session, and no others. Where the engine answers 0
/// the session has the byte order and is else the same; where it answers anything else the session
/// stays, and the result is the error for that.
pub proof fn law_set_endian<F: FnOnce(usize, OptType, usize) -> u32>(
    endian: Endian,
    cs_option: F,
    before: Session,
    after: Session,
    r: CsResult<()>,
)
    requires
        Change::Endian(endian).tried(cs_option, before, after, r),
    ensures
        exists|value: usize, code: u32|
            {
                &&& #[trigger] call_ensures(
                    cs_option,
                    (before.handle, OptType::Mode, value),
                    code,
                )
                &&& (value as i32) & endian.bits() == endian.bits()
                &&& value as i32 == before.mode | before.extra_mode | endian.bits()
                &&& value == (value as i32) as usize
                &&& code == 0 ==> r is Ok && after == (Session { endian: endian.bits(), ..before })
                &&& code != 0 ==> after == before && r is Err && r == cs_result(code)
            },
{
    let bits = before.mode | before.extra_mode | endian.bits();
    let value = bits as usize;
    lemma_option_value(bits);
    lemma_combination(before.mode, before.extra_mode, endian.bits());
    let change = Change::Endian(endian);
    assert(change.call(before) == (before.handle, OptType::Mode, value));
    let code = choose|code: u32|
        {
            &&& #[trigger] call_ensures(cs_option, change.call(before), code)
            &&& after == change.outcome(before, code)
            &&& r == cs_result(code)
        };
    assert(call_ensures(cs_option, (before.handle, OptType::Mode, value), code));
}

/// Setting extra modes hands the engine an option value that holds the bits of each of them beside
/// the mode and the byte order of the session. The extra modes that the session had before leave no
/// trace. The 32-bit base mode comes along on MIPS in Mips32r6 mode, and nothing else does. Where
/// the engine answers 0 the session has these extra modes and is else the same; where it answers
/// anything else the session stays, and the result is the error for that.
pub proof fn law_set_extra_mode<F: FnOnce(usize, OptType, usize) -> u32>(
    modes: Seq<ExtraMode>,
    cs_option: F,
    before: Session,
    after: Session,
    r: CsResult<()>,
)
    requires
        Change::ExtraMode(modes).tried(cs_option, before, after, r),
    ensures
        exists|extra: i32, value: usize, code: u32|
            {
                &&& #[trigger] call_ensures(
                    cs_option,
                    (before.handle, OptType::Mode, value),
                    code,
                )
                &&& value as i32 == #[trigger] (before.mode | extra | before.endian)
                &&& value == (value as i32) as usize
                &&& forall|m: ExtraMode| #[trigger]
                    modes.contains(m) ==> extra & m.bits() == m.bits()
                &&& extra & CS_MODE_32 == if before.arch == Arch::MIPS && before.mode
                    == Mode::Mips32R6.bits() {
                    CS_MODE_32
                } else {
                    0
                }
                &&& forall|k: i32|
                    k & CS_MODE_32 == 0 && (forall|m: ExtraMode| #[trigger]
                        modes.contains(m) ==> k & m.bits() == 0) ==> #[trigger] (k & extra) == 0
                &&& code == 0 ==> r is Ok && after == (Session { extra_mode: extra, ..before })
                &&& code != 0 ==> after == before && r is Err && r == cs_result(code)
            },
{
    let x = extra_mode_bits(modes);
    law_extra_mode_bits(modes);
    let forced = before.arch == Arch::MIPS && before.mode == Mode::Mips32R6.bits();
    let extra = if forced {
        x | CS_MODE_32
    } else {
        x
    };
    let base = CS_MODE_32;
    assert(base & x == 0) by {
        assert forall|m: ExtraMode| #[trigger] modes.contains(m) implies base & m.bits() == 0 by {
            assert(4i32 & 16 == 0 && 4i32 & 32 == 0 && 4i32 & 64 == 0) by (bit_vector);
        }
    }
    assert(x & 4 == 0 && (x | 4) & 4 == 4) by (bit_vector)
        requires
            4i32 & x == 0,
    ;
    assert forall|m: ExtraMode| #[trigger] modes.contains(m) implies extra & m.bits()
        == m.bits() by {
        let bits = m.bits();
        assert((x | 4) & bits == bits) by (bit_vector)
            requires
                x & bits == bits,
        ;
    }
    assert forall|k: i32|
        k & CS_MODE_32 == 0 && (forall|m: ExtraMode| #[trigger]
            modes.contains(m) ==> k & m.bits() == 0) implies #[trigger] (k & extra) == 0 by {
        assert(k & x == 0);
        assert(k & (x | 4) == 0) by (bit_vector)
            requires
                k & x == 0,
                k & 4 == 0,
        ;
    }
    let bits = before.mode | extra | before.endian;
    let value = bits as usize;
    lemma_option_value(bits);
    let change = Change::ExtraMode(modes);
    assert(change.applied(before) == Session { extra_mode: extra, ..before });
    assert(change.call(before) == (before.handle, OptType::Mode, value));
    let code = choose|code: u32|
        {
            &&& #[trigger] call_ensures(cs_option, change.call(before), code)
            &&& after == change.outcome(before, code)
            &&& r == cs_result(code)
        };
    assert(call_ensures(cs_option, (before.handle, OptType::Mode, value), code));
}

/// Setting the syntax hands the engine the code of that syntax. Where the engine answers 0 the
/// session has the syntax and is else the same; where it answers anything else the session stays,
/// and the result is the error for that.
pub proof fn law_set_syntax<F: FnOnce(usize, OptType, usize) -> u32>(
    syntax: Syntax,
    cs_option: F,
    before: Session,
    after: Session,
    r: CsResult<()>,
)
    requires
        Change::Syntax(syntax).tried(cs_option, before, after, r),
    ensures
        exists|code: u32|
            {
                &&& #[trigger] call_ensures(
                    cs_option,
                    (before.handle, OptType::Syntax, syntax.code() as usize),
                    code,
                )
                &&& code == 0 ==> r is Ok && after == (Session { syntax: syntax.code(), ..before })
                &&& code != 0 ==> after == before && r is Err && r == cs_result(code)
            },
{
    let change = Change::Syntax(syntax);
    assert(change.call(before) == (before.handle, OptType::Syntax, syntax.code() as usize));
}

/// Different syntaxes hand the engine different values.
pub proof fn law_syntaxes_differ(a: Syntax, b: Syntax, s: Session)
    requires
        a != b,
    ensures
        Change::Syntax(a).call(s).2 != Change::Syntax(b).call(s).2,
        Change::Syntax(a).applied(s).syntax != Change::Syntax(b).applied(s).syntax,
{
}

/// Switching details hands the engine 3 for on and 0 for off. Where the engine answers 0 the
/// session has details as asked and is else the same; where it answers anything else the session
/// stays, and the result is the error for that.
pub proof fn law_set_detail<F: FnOnce(usize, OptType, usize) -> u32>(
    on: bool,
    cs_option: F,
    before: Session,
    after: Session,
    r: CsResult<()>,
)
    requires
        Change::Detail(on).tried(cs_option, before, after, r),
    ensures
        exists|value: usize, code: u32|
            {
                &&& #[trigger] call_ensures(
                    cs_option,
                    (before.handle, OptType::Detail, value),
                    code,
                )
                &&& on ==> value == 3
                &&& !on ==> value == 0
                &&& code == 0 ==> r is Ok && after == (Session { detail: on, ..before })
                &&& code != 0 ==> after == before && r is Err && r == cs_result(code)
            },
{
    let change = Change::Detail(on);
    let value = if on {
        3usize
    } else {
        0usize
    };
    assert(change.call(before) == (before.handle, OptType::Detail, value));
}

/// Every instruction that the engine finds is returned, in the engine's order, and nothing else.
pub proof fn law_disassembly_is_complete<
    D: FnOnce(usize, &[u8], u64, usize) -> Vec<Insn>,
    E: FnOnce(usize) -> u32,
>(
    handle: usize,
    code: &[u8],
    addr: u64,
    count: usize,
    cs_disasm: D,
    cs_errno: E,
    found: Seq<Insn>,
    r: CsResult<Instructions>,
)
    requires
        disassembled(handle, code, addr, count, cs_disasm, cs_errno, r),
        forall|insns: Vec<Insn>| #[trigger]
            call_ensures(cs_disasm, (handle, code, addr, count), insns) ==> insns@ == found,
        found.len() > 0,
    ensures
        r matches Ok(all) && all@.len() == found.len() && (forall|i: int|
            0 <= i < found.len() ==> #[trigger] all@[i] == found[i]),
{
}

/// Where the engine finds no instructions, its last error decides: with the code 0 the result is no
/// instructions, and with any other it is the error for that.
pub proof fn law_nothing_found<
    D: FnOnce(usize, &[u8], u64, usize) -> Vec<Insn>,
    E: FnOnce(usize) -> u32,
>(
    handle: usize,
    code: &[u8],
    addr: u64,
    count: usize,
    cs_disasm: D,
    cs_errno: E,
    errno: u32,
    r: CsResult<Instructions>,
)
    requires
        disassembled(handle, code, addr, count, cs_disasm, cs_errno, r),
        forall|insns: Vec<Insn>| #[trigger]
            call_ensures(cs_disasm, (handle, code, addr, count), insns) ==> insns@.len() == 0,
        forall|e: u32| #[trigger] call_ensures(cs_errno, (handle,), e) ==> e == errno,
    ensures
        errno == 0 ==> (r matches Ok(none) && none@.len() == 0),
        errno != 0 ==> (r matches Err(e) && cs_result(errno) == Err::<(), Error>(e)),
{
}

/// What keeps details from being read: first that they are off, then that the instruction stands
/// for skipped bytes, then that the engine answers that it was built in diet mode; and nothing
/// else.
pub proof fn law_detail_refusals<S: FnOnce(i32) -> bool>(
    s: Session,
    insn: Insn,
    cs_support: S,
    diet: bool,
    error: Option<CapstoneError>,
)
    requires
        detail_asked(s, insn, cs_support, error),
        forall|answer: bool| #[trigger]
            call_ensures(cs_support, (CS_SUPPORT_DIET,), answer) ==> answer == diet,
    ensures
        !s.detail ==> error == Some(CapstoneError::DetailOff),
        s.detail && insn.id == 0 ==> error == Some(CapstoneError::IrrelevantDataInSkipData),
        s.detail && insn.id != 0 && diet ==> error == Some(CapstoneError::IrrelevantDataInDiet),
        s.detail && insn.id != 0 && !diet ==> error is None,
{
}

/// What is read of the details of an instruction is what they hold, and it is refused for the
/// reasons that details are refused for, and for no other.
pub proof fn law_detail_is_read<S: FnOnce(i32) -> bool, T>(
    s: Session,
    insn: Insn,
    cs_support: S,
    diet: bool,
    value: T,
    r: CsResult<T>,
)
    requires
        detail_read(s, insn, cs_support, value, r),
        forall|answer: bool| #[trigger]
            call_ensures(cs_support, (CS_SUPPORT_DIET,), answer) ==> answer == diet,
    ensures
        s.detail && insn.id != 0 && !diet ==> r == Ok::<T, Error>(value) && insn.detail is Some,
        !s.detail ==> r == Err::<T, Error>(Error::Capstone(CapstoneError::DetailOff)),
        s.detail && insn.id == 0 ==> r == Err::<T, Error>(
            Error::Capstone(CapstoneError::IrrelevantDataInSkipData),
        ),
        s.detail && insn.id != 0 && diet ==> r == Err::<T, Error>(
            Error::Capstone(CapstoneError::IrrelevantDataInDiet),
        ),
{
}

/// A question about the details of an instruction is answered by the engine, whatever the engine
/// says, and it is refused for the reasons that details are refused for, and for no other.
pub proof fn law_query_is_answered<
    S: FnOnce(i32) -> bool,
    Q: FnOnce(usize, &Insn, u32) -> bool,
>(
    s: Session,
    insn: &Insn,
    id: u32,
    cs_support: S,
    cs_query: Q,
    diet: bool,
    answer: bool,
    r: CsResult<bool>,
)
    requires
        query_answered(s, insn, id, cs_support, cs_query, r),
        forall|d: bool| #[trigger]
            call_ensures(cs_support, (CS_SUPPORT_DIET,), d) ==> d == diet,
        forall|a: bool| #[trigger]
            call_ensures(cs_query, (s.handle, insn, id), a) ==> a == answer,
    ensures
        s.detail && insn.id != 0 && !diet ==> r == Ok::<bool, Error>(answer),
        !s.detail ==> r == Err::<bool, Error>(Error::Capstone(CapstoneError::DetailOff)),
        s.detail && insn.id == 0 ==> r == Err::<bool, Error>(
            Error::Capstone(CapstoneError::IrrelevantDataInSkipData),
        ),
        s.detail && insn.id != 0 && diet ==> r == Err::<bool, Error>(
            Error::Capstone(CapstoneError::IrrelevantDataInDiet),
        ),
{
}

/// The listed groups and registers are the engine's numbers, each of them and in their order.
pub proof fn law_ids_are_the_raw_numbers(groups: Seq<u8>, regs: Seq<u16>)
    ensures
        group_ids(groups).len() == groups.len(),
        forall|i: int| 0 <= i < groups.len() ==> (#[trigger] group_ids(groups)[i]).0 == groups[i],
        reg_ids(regs).len() == regs.len(),
        forall|i: int| 0 <= i < regs.len() ==> (#[trigger] reg_ids(regs)[i]).0 == regs[i],
{
}

/// The iterators hand out all that is still to come, and nothing else.
pub proof fn law_iterators_hand_out_the_rest(groups: InsnGroupIter, regs: RegsIter)
    ensures
        IteratorSpec::obeys_prophetic_iter_laws(&groups),
        IteratorSpec::remaining(&groups) == groups.rest(),
        IteratorSpec::obeys_prophetic_iter_laws(&regs),
        IteratorSpec::remaining(&regs) == regs.rest(),
{
}

/// The set of extra modes that has none hands out none.
pub proof fn law_no_extra_mode(modes: EmptyExtraModeIter)
    ensures
        IteratorSpec::obeys_prophetic_iter_laws(&modes),
        IteratorSpec::decrease(&modes) is Some,
        IteratorSpec::remaining(&modes).len() == 0,
        extra_mode_bits(IteratorSpec::remaining(&modes)) == 0,
{
    law_extra_mode_bits(IteratorSpec::remaining(&modes));
}

/// The registers that are read come from the buffer of registers that are read: as many as its
/// count says, or all that it has, from the front. The registers that are written come in the same
/// way from their own buffer and count. An error code gives the error for it, and no registers.
pub proof fn law_registers(reply: RegsAccess, r: CsResult<(Vec<u16>, Vec<u16>)>)
    requires
        reply.yields(r),
    ensures
        reply.code == 0 ==> {
            &&& r matches Ok(regs)
            &&& regs.0@.len() == if reply.regs_read_count <= 64 {
                reply.regs_read_count as nat
            } else {
                64
            }
            &&& regs.1@.len() == if reply.regs_write_count <= 64 {
                reply.regs_write_count as nat
            } else {
                64
            }
            &&& forall|i: int| 0 <= i < regs.0@.len() ==> #[trigger] regs.0@[i]
                == reply.regs_read@[i]
            &&& forall|i: int| 0 <= i < regs.1@.len() ==> #[trigger] regs.1@[i]
                == reply.regs_write@[i]
        },
        reply.code != 0 ==> (r matches Err(e) && cs_result(reply.code) == Err::<(), Error>(e)),
{
}

/// Asking for registers hands the engine the handle, the instruction and two buffers of 64 zeros.
pub proof fn law_access_buffers<
    A: FnOnce(usize, &Insn, [u16; 64], [u16; 64]) -> RegsAccess,
>(handle: usize, insn: &Insn, cs_regs_access: A, reply: RegsAccess)
    requires
        access_asked(handle, insn, cs_regs_access, reply),
    ensures
        exists|read: [u16; 64], write: [u16; 64]|
            {
                &&& #[trigger] call_ensures(cs_regs_access, (handle, insn, read, write), reply)
                &&& forall|i: int| 0 <= i < 64 ==> #[trigger] read@[i] == 0
                &&& forall|i: int| 0 <= i < 64 ==> #[trigger] write@[i] == 0
            },
        zeros().len() == 64,
        forall|i: int| 0 <= i < 64 ==> #[trigger] zeros()[i] == 0,
{
}

/// A name is the text of the bytes that the engine answers with, whole, and there is one exactly
/// where the engine has one.
pub proof fn law_name<N: FnOnce(usize, u32) -> Option<Vec<u8>>>(
    handle: usize,
    id: u32,
    cs_name: N,
    name: Option<Seq<u8>>,
    r: Option<String>,
)
    requires
        named(handle, id, cs_name, r),
        forall|bytes: Option<Vec<u8>>| #[trigger]
            call_ensures(cs_name, (handle, id), bytes) ==> match (bytes, name) {
                (Some(b), Some(n)) => b@ == n,
                (None, None) => true,
                _ => false,
            },
    ensures
        name is None <==> r is None,
        name matches Some(n) ==> (r matches Some(s) && s@ == lossy_text(n)),
        name matches Some(n) ==> valid_utf8(n) ==> (r matches Some(s) && s@ == decode_utf8(n)),
{
}

/// Closing hands the engine the handle.
pub proof fn law_closing<C: FnOnce(usize) -> u32>(handle: usize, cs_close: C)
    requires
        closed(handle, cs_close),
    ensures
        exists|code: u32| #[trigger] call_ensures(cs_close, (handle,), code),
{
}

/// A code is no error exactly where it is 0. Each other code that the engine knows has an error of
/// its own, and all others are the same unknown error.
pub proof fn law_every_code_has_its_result(code: u32)
    ensures
        cs_result(code) is Ok <==> code == 0,
        code != 0 ==> cs_result(code) == Err::<(), Error>(
            Error::Capstone(
                match code {
                    1u32 => CapstoneError::OutOfMemory,
                    2u32 => CapstoneError::UnsupportedArch,
                    3u32 => CapstoneError::InvalidHandle,
                    4u32 => CapstoneError::InvalidCsh,
                    5u32 => CapstoneError::InvalidMode,
                    6u32 => CapstoneError::InvalidOption,
                    7u32 => CapstoneError::DetailOff,
                    8u32 => CapstoneError::MemSetup,
                    9u32 => CapstoneError::UnsupportedVersion,
                    10u32 => CapstoneError::IrrelevantDataInDiet,
                    11u32 => CapstoneError::IrrelevantDataInSkipData,
                    12u32 => CapstoneError::UnsupportedX86Att,
                    13u32 => CapstoneError::UnsupportedX86Intel,
                    14u32 => CapstoneError::UnsupportedX86Masm,
                    _ => CapstoneError::UnknownCapstoneError,
                },
            ),
        ),
{
}

/// The bits and codes by which the engine knows the settings. A mode has at most one bit, an extra
/// mode has exactly one, and the byte order has the sign bit.
pub proof fn law_engine_numbers(mode: Mode, extra_mode: ExtraMode, endian: Endian, syntax: Syntax)
    ensures
        mode.bits() == match mode {
            Mode::Arm | Mode::Default => 0i32,
            Mode::Mode16 | Mode::M68k000 | Mode::M680x6301 => 2,
            Mode::Mode32 | Mode::Mips32 | Mode::M68k010 | Mode::M680x6309 => 4,
            Mode::Mode64 | Mode::Mips64 | Mode::M68k020 | Mode::M680x6800 => 8,
            Mode::Thumb | Mode::V9 | Mode::Qpx | Mode::M68k030 | Mode::M680x6801 => 16,
            Mode::Mips3 | Mode::M68k040 | Mode::M680x6805 => 32,
            Mode::Mips32R6 | Mode::M68k060 | Mode::M680x6808 => 64,
            Mode::Mips2 | Mode::M680x6809 => 128,
            Mode::M680x6811 => 256,
            Mode::M680xCpu12 => 512,
            Mode::M680xHcs08 => 1024,
        },
        extra_mode.bits() == match extra_mode {
            ExtraMode::Micro => 16i32,
            ExtraMode::MClass => 32,
            ExtraMode::V8 => 64,
        },
        endian.bits() == match endian {
            Endian::Little => 0i32,
            Endian::Big => i32::MIN,
        },
        syntax.code() == match syntax {
            Syntax::Intel => 1u32,
            Syntax::Att => 2,
            Syntax::NoRegName => 3,
            Syntax::Masm => 4,
        },
{
}

/// The engine is asked about different architectures by different numbers, and about none of them
/// by the number that asks for diet mode.
pub proof fn law_support_queries_differ(a: Arch, b: Arch)
    ensures
        a != b ==> a.number() != b.number(),
        a.number() != CS_SUPPORT_DIET,
{
}

/// The modes of x86 are told apart by their bits: an eighth of the width of the mode.
pub proof fn law_x86_mode_bits(mode: ArchMode)
    ensures
        8 * mode.mode().bits() == match mode {
            ArchMode::Mode16 => 16int,
            ArchMode::Mode32 => 32,
            ArchMode::Mode64 => 64,
        },
{
}

/// An engine whose functions can always be called can be asked anything of an instruction that
/// carries details, and can be asked to disassemble; and with details off, nothing is needed.
pub proof fn law_callable_engine_is_ready<
    S: FnOnce(i32) -> bool,
    Q: FnOnce(usize, &Insn, u32) -> bool,
    D: FnOnce(usize, &[u8], u64, usize) -> Vec<Insn>,
    E: FnOnce(usize) -> u32,
>(
    s: Session,
    insn: &Insn,
    id: u32,
    cs_support: S,
    cs_query: Q,
    code: &[u8],
    addr: u64,
    count: usize,
    cs_disasm: D,
    cs_errno: E,
)
    ensures
        !s.detail || insn.id == 0 ==> detail_ready(s, *insn, cs_support) && query_ready(
            s,
            insn,
            id,
            cs_support,
            cs_query,
        ),
        insn.detail is Some && call_requires(cs_support, (CS_SUPPORT_DIET,)) ==> detail_ready(
            s,
            *insn,
            cs_support,
        ),
        insn.detail is Some && call_requires(cs_support, (CS_SUPPORT_DIET,)) && call_requires(
            cs_query,
            (s.handle, insn, id),
        ) ==> query_ready(s, insn, id, cs_support, cs_query),
        call_requires(cs_disasm, (s.handle, code, addr, count)) && call_requires(
            cs_errno,
            (s.handle,),
        ) ==> disasm_ready(s.handle, code, addr, count, cs_disasm, cs_errno),
{
}

} // verus!

//! What holds of sessions, whatever is done with them.
//!
//! The operations of [`Capstone`](crate::Capstone) say in their contracts which [`Change`] they
//! try and what it makes of the [`Session`]. The functions here state what follows for several
//! changes together, and for questions that have to do with each other. Where a law rests on how
//! the engine answers, its premises say how.

use crate::constants::{Arch, Endian, ExtraMode, Mode, OptType, CS_MODE_32, CS_SUPPORT_DIET};
use crate::engine::{
    asks_diet, closed, detail_asked, detail_error, detail_read, disassembled, named, opened,
    query_answered,
};
use crate::error::{cs_result, CapstoneError, CsResult, Error, CS_ERR_OK, CS_ERR_X86_MASM};
use crate::instruction::{group_ids, reg_ids, same_insn};
use crate::instruction::{Insn, InsnGroupId, Instructions, RegId};
use crate::session::{endian_bits, extra_mode_bits, open_mode, Change, Session};
use vstd::prelude::*;

pub mod operations;

verus! {

/// A change that was tried, and the code that the engine answered with.
pub struct Attempt {
    /// The change.
    pub change: Change,
    /// The answer.
    pub code: u32,
}

/// The session that is left of `s` after `attempts`, the first one first.
pub open spec fn replayed(s: Session, attempts: Seq<Attempt>) -> Session
    decreases attempts.len(),
{
    if attempts.len() == 0 {
        s
    } else {
        attempts.last().change.outcome(replayed(s, attempts.drop_last()), attempts.last().code)
    }
}

/// The value of the option `kind` that the engine accepted last in the course of `attempts`, or
/// the one it had in `s` where it accepted none.
pub open spec fn last_accepted(s: Session, attempts: Seq<Attempt>, kind: OptType) -> usize
    decreases attempts.len(),
{
    if attempts.len() == 0 {
        s.option_value(kind)
    } else if attempts.last().code == CS_ERR_OK && attempts.last().change.kind() == kind {
        attempts.last().change.call(replayed(s, attempts.drop_last())).2
    } else {
        last_accepted(s, attempts.drop_last(), kind)
    }
}

/// Whatever was tried, and whatever the engine made of it: each option of the session has the value
/// that the engine accepted last, and handle and architecture are still the same.
pub proof fn law_session_follows_engine(s: Session, attempts: Seq<Attempt>, kind: OptType)
    ensures
        replayed(s, attempts).option_value(kind) == last_accepted(s, attempts, kind),
        replayed(s, attempts).handle == s.handle,
        replayed(s, attempts).arch == s.arch,
    decreases attempts.len(),
{
    if attempts.len() > 0 {
        law_session_follows_engine(s, attempts.drop_last(), kind);
    }
}

/// Trying a change adds one attempt to the history of a session: what an operation makes of the
/// session is what replaying the history with that attempt makes of it.
pub proof fn law_trying_is_an_attempt<F: FnOnce(usize, OptType, usize) -> u32>(
    change: Change,
    cs_option: F,
    s: Session,
    attempts: Seq<Attempt>,
    after: Session,
    r: CsResult<()>,
)
    requires
        change.tried(cs_option, replayed(s, attempts), after, r),
    ensures
        exists|code: u32|
            {
                &&& #[trigger] call_ensures(cs_option, change.call(replayed(s, attempts)), code)
                &&& after == replayed(s, attempts.push(Attempt { change, code }))
                &&& r == cs_result(code)
            },
{
    let before = replayed(s, attempts);
    let code = choose|code: u32|
        {
            &&& #[trigger] call_ensures(cs_option, change.call(before), code)
            &&& after == change.outcome(before, code)
            &&& r == cs_result(code)
        };
    let longer = attempts.push(Attempt { change, code });
    assert(longer.drop_last() =~= attempts);
    assert(longer.last() == Attempt { change, code });
}

/// A session starts with the mode bits that the engine was opened with.
pub proof fn law_open_mode(
    handle: usize,
    arch: Arch,
    mode: Mode,
    extra_modes: Seq<ExtraMode>,
    endian: Option<Endian>,
)
    ensures
        Session::opened(handle, arch, mode, extra_modes, endian).raw_mode() == open_mode(
            mode,
            extra_modes,
            endian,
        ),
{
    let (m, e, x) = (mode.bits(), endian_bits(endian), extra_mode_bits(extra_modes));
    assert((m | x) | e == (m | e) | x) by (bit_vector);
}

/// The combined mode bits hold the bits of the mode, of the extra modes and of the byte order, and
/// no other bits.
pub proof fn law_raw_mode_is_exactly_its_parts(s: Session)
    ensures
        s.raw_mode() & s.mode == s.mode,
        s.raw_mode() & s.extra_mode == s.extra_mode,
        s.raw_mode() & s.endian == s.endian,
        s.raw_mode() & !s.mode & !s.extra_mode & !s.endian == 0,
{
    let (m, x, e) = (s.mode, s.extra_mode, s.endian);
    assert((m | x | e) & m == m) by (bit_vector);
    assert((m | x | e) & x == x) by (bit_vector);
    assert((m | x | e) & e == e) by (bit_vector);
    assert((m | x | e) & !m & !x & !e == 0) by (bit_vector);
}

/// No mode bit is lost on the way to the engine: the option value, cut to the width of the mode
/// bits, is the combined mode bits again.
pub proof fn law_mode_value_is_lossless(s: Session)
    ensures
        s.option_value(OptType::Mode) as i32 == s.raw_mode(),
{
    let m = s.raw_mode();
    assert((m as usize) as i32 == m) by (bit_vector);
}

/// A change that the engine refuses leaves the session as it was.
pub proof fn law_refused_change_changes_nothing(change: Change, s: Session, code: u32)
    requires
        code != CS_ERR_OK,
    ensures
        change.outcome(s, code) == s,
        cs_result(code) is Err,
{
}

/// Whether two changes set the same thing.
pub open spec fn same_setting(a: Change, b: Change) -> bool {
    match a {
        Change::Mode(_) => b is Mode,
        Change::Endian(_) => b is Endian,
        Change::ExtraMode(_) => b is ExtraMode,
        Change::Syntax(_) => b is Syntax,
        Change::Detail(_) => b is Detail,
    }
}

/// Of two accepted changes of the same setting, only the last one counts. In particular, setting
/// extra modes replaces the ones that were set before.
pub proof fn law_last_change_wins(a: Change, b: Change, s: Session)
    requires
        same_setting(a, b),
    ensures
        b.applied(a.applied(s)) == b.applied(s),
{
}

/// A change is undone by a change of the same setting back to the value it had.
pub proof fn law_change_is_undone(a: Change, b: Change, s: Session)
    requires
        same_setting(a, b),
        b.applied(s) == s,
    ensures
        b.applied(a.applied(s)) == s,
{
    law_last_change_wins(a, b, s);
}

/// Changes of different settings can be tried in either order, with the same answers and the same
/// session in the end. The exception are a mode and extra modes where the new mode alters whether
/// the 32-bit base mode is forced.
pub proof fn law_changes_commute(a: Change, b: Change, s: Session, code_a: u32, code_b: u32)
    requires
        !same_setting(a, b),
        a is Mode && b is ExtraMode ==> a.outcome(s, code_a).forces_mode_32()
            == s.forces_mode_32(),
        a is ExtraMode && b is Mode ==> b.outcome(s, code_b).forces_mode_32()
            == s.forces_mode_32(),
    ensures
        b.outcome(a.outcome(s, code_a), code_b) == a.outcome(b.outcome(s, code_b), code_a),
{
}

/// The bits of extra modes hold those of each mode among them.
proof fn lemma_extra_mode_is_held(modes: Seq<ExtraMode>, m: ExtraMode)
    requires
        modes.contains(m),
    ensures
        extra_mode_bits(modes) | m.bits() == extra_mode_bits(modes),
    decreases modes.len(),
{
    let rest = extra_mode_bits(modes.drop_last());
    let last = modes.last().bits();
    let bits = m.bits();
    assert(extra_mode_bits(modes) == rest | last);
    if modes.last() == m {
        assert(rest | bits | bits == rest | bits) by (bit_vector);
    } else {
        let i = choose|i: int| 0 <= i < modes.len() && modes[i] == m;
        assert(modes.drop_last()[i] == m);
        lemma_extra_mode_is_held(modes.drop_last(), m);
        assert((rest | last) | bits == rest | last) by (bit_vector)
            requires
                rest | bits == rest,
        ;
    }
}

/// Extra modes among others add no bits to them.
proof fn lemma_fewer_extra_modes(a: Seq<ExtraMode>, b: Seq<ExtraMode>)
    requires
        forall|m: ExtraMode| a.contains(m) ==> b.contains(m),
    ensures
        extra_mode_bits(b) | extra_mode_bits(a) == extra_mode_bits(b),
    decreases a.len(),
{
    let all = extra_mode_bits(b);
    if a.len() == 0 {
        assert(all | 0 == all) by (bit_vector);
    } else {
        let rest = extra_mode_bits(a.drop_last());
        let last = a.last().bits();
        assert forall|m: ExtraMode| a.drop_last().contains(m) implies b.contains(m) by {
            let i = choose|i: int| 0 <= i < a.drop_last().len() && a.drop_last()[i] == m;
            assert(a[i] == m);
        }
        lemma_fewer_extra_modes(a.drop_last(), b);
        assert(a[a.len() - 1] == a.last());
        lemma_extra_mode_is_held(b, a.last());
        assert(all | (rest | last) == all) by (bit_vector)
            requires
                all | rest == all,
                all | last == all,
        ;
    }
}

/// Neither the order of extra modes nor how often one is given plays a part: what counts is which
/// modes there are.
pub proof fn law_extra_modes_are_a_set(a: Seq<ExtraMode>, b: Seq<ExtraMode>)
    requires
        forall|m: ExtraMode| a.contains(m) <==> b.contains(m),
    ensures
        extra_mode_bits(a) == extra_mode_bits(b),
{
    lemma_fewer_extra_modes(a, b);
    lemma_fewer_extra_modes(b, a);
    let (x, y) = (extra_mode_bits(a), extra_mode_bits(b));
    assert(x == y) by (bit_vector)
        requires
            x | y == x,
            y | x == y,
    ;
}

/// The bits of two lists of extra modes, one after the other, are those of either list together,
/// whichever comes first.
pub proof fn law_extra_modes_combine(a: Seq<ExtraMode>, b: Seq<ExtraMode>)
    ensures
        extra_mode_bits(a + b) == extra_mode_bits(a) | extra_mode_bits(b),
        extra_mode_bits(b + a) == extra_mode_bits(a + b),
    decreases b.len(),
{
    let x = extra_mode_bits(a);
    if b.len() == 0 {
        assert(a + b =~= a);
        assert(x | 0 == x) by (bit_vector);
    } else {
        law_extra_modes_combine(a, b.drop_last());
        let rest = extra_mode_bits(b.drop_last());
        let last = b.last().bits();
        assert((a + b).drop_last() =~= a + b.drop_last());
        assert((x | rest) | last == x | (rest | last)) by (bit_vector);
    }
    assert forall|m: ExtraMode| (b + a).contains(m) <==> (a + b).contains(m) by {
        lemma_concat_contains(a, b, m);
        lemma_concat_contains(b, a, m);
    }
    law_extra_modes_are_a_set(b + a, a + b);
}

/// What two lists hold together is what one of them holds.
proof fn lemma_concat_contains(a: Seq<ExtraMode>, b: Seq<ExtraMode>, m: ExtraMode)
    ensures
        (a + b).contains(m) <==> a.contains(m) || b.contains(m),
{
    if a.contains(m) {
        let i = choose|i: int| 0 <= i < a.len() && a[i] == m;
        assert((a + b)[i] == m);
    }
    if b.contains(m) {
        let i = choose|i: int| 0 <= i < b.len() && b[i] == m;
        assert((a + b)[a.len() + i] == m);
    }
}

/// Once extra modes are set, the combined mode bits hold those of each of them, and on MIPS in
/// Mips32r6 mode also the 32-bit base mode.
pub proof fn law_extra_modes_reach_engine(modes: Seq<ExtraMode>, s: Session, m: ExtraMode)
    requires
        modes.contains(m),
    ensures
        Change::ExtraMode(modes).applied(s).raw_mode() & m.bits() == m.bits(),
        s.forces_mode_32() ==> Change::ExtraMode(modes).applied(s).raw_mode() & CS_MODE_32
            == CS_MODE_32,
{
    lemma_extra_mode_is_held(modes, m);
    let x = extra_mode_bits(modes);
    let bits = m.bits();
    let (mode, endian) = (s.mode, s.endian);
    assert((mode | x | endian) & bits == bits) by (bit_vector)
        requires
            x | bits == x,
    ;
    let x32 = x | CS_MODE_32;
    assert((mode | x32 | endian) & bits == bits) by (bit_vector)
        requires
            x | bits == x,
            x32 == x | CS_MODE_32,
    ;
    assert((mode | x32 | endian) & CS_MODE_32 == CS_MODE_32) by (bit_vector)
        requires
            x32 == x | CS_MODE_32,
    ;
}

/// No two codes that this crate knows stand for the same error, and every code but one stands for
/// an error.
pub proof fn law_error_codes_are_distinct(a: u32, b: u32)
    requires
        a <= CS_ERR_X86_MASM,
        b <= CS_ERR_X86_MASM,
        a != b,
    ensures
        cs_result(a) != cs_result(b),
        cs_result(a) is Ok <==> a == CS_ERR_OK,
{
}

/// Details can be read exactly where they are switched on, the instruction does not stand for
/// skipped bytes, and the engine was not built in diet mode.
pub proof fn law_details_readable(s: Session, insn: Insn, diet: bool)
    ensures
        detail_error(s, insn, diet) is None <==> s.detail && insn.id != 0 && !diet,
{
}

/// With details off, or for skipped bytes, the details of an instruction are refused whatever the
/// engine would say of diet mode; and details that are off come first.
pub proof fn law_details_refused_without_asking<S: FnOnce(i32) -> bool>(
    s: Session,
    insn: Insn,
    cs_support: S,
    error: Option<CapstoneError>,
)
    requires
        detail_asked(s, insn, cs_support, error),
        !asks_diet(s, insn),
    ensures
        error == Some(
            if !s.detail {
                CapstoneError::DetailOff
            } else {
                CapstoneError::IrrelevantDataInSkipData
            },
        ),
{
}

/// `part` is the start of `all`, up to `count` instructions.
pub open spec fn is_start(part: Seq<Insn>, all: Seq<Insn>, count: usize) -> bool {
    &&& part.len() == if count <= all.len() {
        count as nat
    } else {
        all.len()
    }
    &&& forall|i: int| 0 <= i < part.len() ==> same_insn(#[trigger] part[i], all[i])
}

/// `cs_disasm` goes through the code instruction by instruction, and stops early where it has found
/// as many as it was asked for.
pub open spec fn stops_at_count<D: FnOnce(usize, &[u8], u64, usize) -> Vec<Insn>>(
    cs_disasm: D,
    handle: usize,
    code: &[u8],
    addr: u64,
) -> bool {
    forall|count: usize, all: Vec<Insn>, part: Vec<Insn>|
        count > 0 && #[trigger] call_ensures(cs_disasm, (handle, code, addr, 0usize), all)
            && #[trigger] call_ensures(cs_disasm, (handle, code, addr, count), part) ==> is_start(
            part@,
            all@,
            count,
        )
}

/// With an engine that stops at the count, disassembling a number of instructions gives the first
/// ones, that many or all there are, of what disassembling everything gives.
pub proof fn law_counted_disassembly_is_the_start<
    D: FnOnce(usize, &[u8], u64, usize) -> Vec<Insn>,
    E: FnOnce(usize) -> u32,
>(
    handle: usize,
    code: &[u8],
    addr: u64,
    count: usize,
    cs_disasm: D,
    cs_errno: E,
    all: Instructions,
    part: Instructions,
)
    requires
        count > 0,
        stops_at_count(cs_disasm, handle, code, addr),
        disassembled(handle, code, addr, 0, cs_disasm, cs_errno, Ok(all)),
        disassembled(handle, code, addr, count, cs_disasm, cs_errno, Ok(part)),
    ensures
        is_start(part@, all@, count),
{
}

/// `cs_support` has one answer to the question for diet mode: an engine is built in diet mode or it
/// is not.
pub open spec fn knows_diet<S: FnOnce(i32) -> bool>(cs_support: S) -> bool {
    forall|a: bool, b: bool|
        #[trigger] call_ensures(cs_support, (CS_SUPPORT_DIET,), a) && #[trigger] call_ensures(
            cs_support,
            (CS_SUPPORT_DIET,),
            b,
        ) ==> a == b
}

/// `cs_query` tells whether an id is among `ids`, where it is asked about `insn`.
pub open spec fn searches<Q: FnOnce(usize, &Insn, u32) -> bool>(
    cs_query: Q,
    handle: usize,
    insn: &Insn,
    ids: Seq<u32>,
) -> bool {
    forall|id: u32, answer: bool| #[trigger]
        call_ensures(cs_query, (handle, insn, id), answer) ==> answer == ids.contains(id)
}

/// With an engine that searches the groups of an instruction, asking whether it belongs to a group
/// and listing its groups agree: the answer is whether the group is listed, and where the one is
/// refused, so is the other, with the same error.
pub proof fn law_group_query_agrees_with_list<
    S: FnOnce(i32) -> bool,
    Q: FnOnce(usize, &Insn, u32) -> bool,
>(
    s: Session,
    insn: &Insn,
    group_id: InsnGroupId,
    cs_support: S,
    cs_insn_group: Q,
    query: CsResult<bool>,
    list: CsResult<Seq<InsnGroupId>>,
)
    requires
        knows_diet(cs_support),
        searches(
            cs_insn_group,
            s.handle,
            insn,
            insn.detail->0.groups@.map_values(|g: u8| g as u32),
        ),
        query_answered(s, insn, group_id.0 as u32, cs_support, cs_insn_group, query),
        detail_read(s, *insn, cs_support, group_ids(insn.detail->0.groups@), list),
    ensures
        match list {
            Ok(ids) => query == Ok::<bool, Error>(ids.contains(group_id)),
            Err(e) => query == Err::<bool, Error>(e),
        },
{
    let raw = insn.detail->0.groups@;
    let wide = raw.map_values(|g: u8| g as u32);
    let ids = group_ids(raw);
    if ids.contains(group_id) {
        let i = choose|i: int| 0 <= i < ids.len() && ids[i] == group_id;
        assert(wide[i] == group_id.0 as u32);
    }
    if wide.contains(group_id.0 as u32) {
        let i = choose|i: int| 0 <= i < wide.len() && wide[i] == group_id.0 as u32;
        assert(ids[i] == group_id);
    }
}

/// A register is among register numbers exactly where its number is among them as wide numbers.
proof fn lemma_wide_regs(raw: Seq<u16>, reg_id: RegId)
    ensures
        reg_ids(raw).contains(reg_id) <==> raw.map_values(|r: u16| r as u32).contains(
            reg_id.0 as u32,
        ),
{
    let wide = raw.map_values(|r: u16| r as u32);
    let ids = reg_ids(raw);
    if ids.contains(reg_id) {
        let i = choose|i: int| 0 <= i < ids.len() && ids[i] == reg_id;
        assert(wide[i] == reg_id.0 as u32);
    }
    if wide.contains(reg_id.0 as u32) {
        let i = choose|i: int| 0 <= i < wide.len() && wide[i] == reg_id.0 as u32;
        assert(ids[i] == reg_id);
    }
}

/// With an engine that searches the registers that an instruction reads, asking for one of them and
/// listing them agree, in the answer and in the error.
pub proof fn law_read_query_agrees_with_list<
    S: FnOnce(i32) -> bool,
    Q: FnOnce(usize, &Insn, u32) -> bool,
>(
    s: Session,
    insn: &Insn,
    reg_id: RegId,
    cs_support: S,
    cs_reg_read: Q,
    query: CsResult<bool>,
    list: CsResult<Seq<RegId>>,
)
    requires
        knows_diet(cs_support),
        searches(
            cs_reg_read,
            s.handle,
            insn,
            insn.detail->0.regs_read@.map_values(|r: u16| r as u32),
        ),
        query_answered(s, insn, reg_id.0 as u32, cs_support, cs_reg_read, query),
        detail_read(s, *insn, cs_support, reg_ids(insn.detail->0.regs_read@), list),
    ensures
        match list {
            Ok(ids) => query == Ok::<bool, Error>(ids.contains(reg_id)),
            Err(e) => query == Err::<bool, Error>(e),
        },
{
    lemma_wide_regs(insn.detail->0.regs_read@, reg_id);
}

/// With an engine that searches the registers that an instruction writes, asking for one of them
/// and listing them agree, in the answer and in the error.
pub proof fn law_written_query_agrees_with_list<
    S: FnOnce(i32) -> bool,
    Q: FnOnce(usize, &Insn, u32) -> bool,
>(
    s: Session,
    insn: &Insn,
    reg_id: RegId,
    cs_support: S,
    cs_reg_write: Q,
    query: CsResult<bool>,
    list: CsResult<Seq<RegId>>,
)
    requires
        knows_diet(cs_support),
        searches(
            cs_reg_write,
            s.handle,
            insn,
            insn.detail->0.regs_write@.map_values(|r: u16| r as u32),
        ),
        query_answered(s, insn, reg_id.0 as u32, cs_support, cs_reg_write, query),
        detail_read(s, *insn, cs_support, reg_ids(insn.detail->0.regs_write@), list),
    ensures
        match list {
            Ok(ids) => query == Ok::<bool, Error>(ids.contains(reg_id)),
            Err(e) => query == Err::<bool, Error>(e),
        },
{
    lemma_wide_regs(insn.detail->0.regs_write@, reg_id);
}

/// `cs_name` has one name for `id`, or none: its answer does not depend on when it is asked.
pub open spec fn knows_name<N: FnOnce(usize, u32) -> Option<Vec<u8>>>(
    cs_name: N,
    handle: usize,
    id: u32,
) -> bool {
    forall|a: Option<Vec<u8>>, b: Option<Vec<u8>>|
        #[trigger] call_ensures(cs_name, (handle, id), a) && #[trigger] call_ensures(
            cs_name,
            (handle, id),
            b,
        ) ==> match (a, b) {
            (Some(x), Some(y)) => x@ == y@,
            (None, None) => true,
            _ => false,
        }
}

/// Names are the same before and after any attempts to change the session, be they accepted or
/// refused. In particular the current syntax plays no part in them.
pub proof fn law_names_ignore_settings<N: FnOnce(usize, u32) -> Option<Vec<u8>>>(
    s: Session,
    attempts: Seq<Attempt>,
    id: u32,
    cs_name: N,
    before: Option<String>,
    after: Option<String>,
)
    requires
        knows_name(cs_name, s.handle, id),
        named(s.handle, id, cs_name, before),
        named(replayed(s, attempts).handle, id, cs_name, after),
    ensures
        match (before, after) {
            (Some(x), Some(y)) => x@ == y@,
            (None, None) => true,
            _ => false,
        },
{
    law_session_follows_engine(s, attempts, OptType::Syntax);
}

/// The handle that is closed in the end is the one that opening gave, whatever was tried in
/// between. Closing gives up the session, so that it happens once.
pub proof fn law_opened_handle_is_closed<
    F: FnOnce(Arch, i32) -> (u32, usize),
    C: FnOnce(usize) -> u32,
>(
    arch: Arch,
    mode: Mode,
    extra_modes: Seq<ExtraMode>,
    endian: Option<Endian>,
    cs_open: F,
    s: Session,
    attempts: Seq<Attempt>,
    cs_close: C,
)
    requires
        opened(arch, mode, extra_modes, endian, cs_open, Ok(s)),
        closed(replayed(s, attempts).handle, cs_close),
    ensures
        exists|reply: (u32, usize)|
            {
                &&& #[trigger] call_ensures(
                    cs_open,
                    (arch, open_mode(mode, extra_modes, endian)),
                    reply,
                )
                &&& reply.0 == CS_ERR_OK
                &&& closed(reply.1, cs_close)
            },
{
    law_session_follows_engine(s, attempts, OptType::Mode);
}

} // verus!

//! The disassembler.

use crate::arch::CapstoneBuilder;
use crate::constants::{Arch, Endian, ExtraMode, Mode, OptType, OptValue, Syntax};
use crate::constants::{CS_MODE_32, CS_MODE_MIPS32R6, CS_OPT_SYNTAX_DEFAULT, CS_SUPPORT_DIET};
use crate::engine::{
    access_asked, closed, detail_asked, detail_granted, detail_read, detail_ready, disasm_ready,
    disassembled, named, opened, query_answered, query_ready, zeros,
};
use crate::error::{cs_result, CapstoneError, CsResult, Error};
use crate::instruction::{group_ids, reg_ids};
use crate::instruction::{
    Insn, InsnDetail, InsnGroupId, InsnGroupIter, InsnId, Instructions, RegId, RegsAccess, RegsIter,
    REGS_BUFFER,
};
use crate::session::{extra_mode_bits, open_mode, Change, Session};
use crate::text::name_text;
use vstd::prelude::*;
use vstd::std_specs::iter::{IteratorSpec, IteratorSpecImpl};

verus! {

/// An instance of the disassembler: a handle of the engine, and what the engine is set to.
#[derive(Debug)]
pub struct Capstone {
    /// Handle of the engine.
    csh: usize,
    /// Bits of the disassembly mode.
    mode: i32,
    /// Bits of the byte order.
    endian: i32,
    /// Option value of the assembly syntax.
    syntax: u32,
    /// Bits of the extra modes.
    extra_mode: i32,
    /// Whether to get details when disassembling.
    detail_enabled: bool,
    /// `mode`, `extra_mode` and `endian` together. The engine takes the three at once.
    raw_mode: i32,
    /// Architecture.
    arch: Arch,
}

impl View for Capstone {
    type V = Session;

    closed spec fn view(&self) -> Session {
        Session {
            handle: self.csh,
            arch: self.arch,
            mode: self.mode,
            endian: self.endian,
            extra_mode: self.extra_mode,
            syntax: self.syntax,
            detail: self.detail_enabled,
        }
    }
}

/// No extra modes, for [`Capstone::new_raw`].
pub const NO_EXTRA_MODE: EmptyExtraModeIter = EmptyExtraModeIter;

/// An empty set of extra modes.
#[derive(Clone, Copy, Debug, PartialEq, Eq, Hash)]
pub struct EmptyExtraModeIter;

impl Iterator for EmptyExtraModeIter {
    type Item = ExtraMode;

    fn next(&mut self) -> (r: Option<ExtraMode>)
        ensures
            r is None,
    {
        None
    }
}

impl IteratorSpecImpl for EmptyExtraModeIter {
    open spec fn obeys_prophetic_iter_laws(&self) -> bool {
        true
    }

    open spec fn remaining(&self) -> Seq<ExtraMode> {
        Seq::empty()
    }

    open spec fn will_return_none(&self) -> bool {
        true
    }

    open spec fn decrease(&self) -> Option<nat> {
        Some(0)
    }

    open spec fn initial_value_relation(&self, init: &Self) -> bool {
        true
    }

    open spec fn peek(&self, index: int) -> Option<ExtraMode> {
        None
    }
}

impl Capstone {
    /// The stored combination of the mode bits agrees with the parts it is made of.
    pub closed spec fn wf(&self) -> bool {
        self.raw_mode == self.mode | self.extra_mode | self.endian
    }

    /// Starts to build an instance step by step. This is the recommended way to get one.
    pub fn new() -> (r: CapstoneBuilder)
        ensures
            r == CapstoneBuilder,
    {
        CapstoneBuilder::new()
    }

    /// Opens an engine for `arch`, with the mode bits of `mode`, `extra_mode` and `endian`
    /// combined. The caller must see to it that the combination makes sense; what the engine makes
    /// of one that does not is the engine's affair.
    ///
    /// `cs_open` opens an engine for an architecture and mode bits, and answers with an error code
    /// and a handle.
    pub fn new_raw<T: Iterator<Item = ExtraMode>, F: FnOnce(Arch, i32) -> (u32, usize)>(
        arch: Arch,
        mode: Mode,
        extra_mode: T,
        endian: Option<Endian>,
        cs_open: F,
    ) -> (r: CsResult<Capstone>)
        requires
            extra_mode.obeys_prophetic_iter_laws(),
            extra_mode.decrease() is Some,
            call_requires(cs_open, (arch, open_mode(mode, extra_mode.remaining(), endian))),
        ensures
            opened(
                arch,
                mode,
                extra_mode.remaining(),
                endian,
                cs_open,
                match r {
                    Ok(cs) => Ok(cs@),
                    Err(e) => Err(e),
                },
            ),
            r matches Ok(cs) ==> cs.wf(),
            r matches Ok(cs) ==> {
                &&& cs@.arch == arch
                &&& cs@.mode == mode.bits()
                &&& endian matches Some(e) ==> cs@.endian == e.bits()
                &&& endian is None ==> cs@.endian == 0
                &&& !cs@.detail
            },
    {
        let csmode: i32 = mode.bits();
        let endian: i32 = match endian {
            Some(endian) => endian.bits(),
            None => 0,
        };
        let extra_mode: i32 = Self::extra_mode_value(extra_mode);

        let combined_mode: i32 = csmode | endian | extra_mode;
        let (err, handle) = cs_open(arch, combined_mode);

        match cs_result(err) {
            Ok(()) => {
                let mut cs = Capstone {
                    csh: handle,
                    syntax: CS_OPT_SYNTAX_DEFAULT,
                    endian,
                    mode: csmode,
                    extra_mode,
                    detail_enabled: false,
                    raw_mode: 0,
                    arch,
                };
                cs.update_raw_mode();
                Ok(cs)
            },
            Err(e) => Err(e),
        }
    }

    /// Disassembles all instructions in a buffer.
    pub fn disasm_all<
        D: FnOnce(usize, &[u8], u64, usize) -> Vec<Insn>,
        E: FnOnce(usize) -> u32,
    >(&self, code: &[u8], addr: u64, cs_disasm: D, cs_errno: E) -> (r: CsResult<Instructions>)
        requires
            disasm_ready(self@.handle, code, addr, 0, cs_disasm, cs_errno),
        ensures
            disassembled(self@.handle, code, addr, 0, cs_disasm, cs_errno, r),
    {
        self.disasm(code, addr, 0, cs_disasm, cs_errno)
    }

    /// Disassembles `count` instructions in `code`. A count of 0 is refused.
    pub fn disasm_count<
        D: FnOnce(usize, &[u8], u64, usize) -> Vec<Insn>,
        E: FnOnce(usize) -> u32,
    >(&self, code: &[u8], addr: u64, count: usize, cs_disasm: D, cs_errno: E) -> (r: CsResult<
        Instructions,
    >)
        requires
            count > 0 ==> disasm_ready(self@.handle, code, addr, count, cs_disasm, cs_errno),
        ensures
            if count == 0 {
                r matches Err(Error::CustomError(msg)) && msg@
                    == "Invalid dissasemble count; must be > 0"@
            } else {
                disassembled(self@.handle, code, addr, count, cs_disasm, cs_errno, r)
            },
    {
        if count == 0 {
            return Err(Error::CustomError("Invalid dissasemble count; must be > 0"));
        }
        self.disasm(code, addr, count, cs_disasm, cs_errno)
    }

    /// Disassembles instructions in `code`, all of them where `count` is 0.
    fn disasm<D: FnOnce(usize, &[u8], u64, usize) -> Vec<Insn>, E: FnOnce(usize) -> u32>(
        &self,
        code: &[u8],
        addr: u64,
        count: usize,
        cs_disasm: D,
        cs_errno: E,
    ) -> (r: CsResult<Instructions>)
        requires
            disasm_ready(self@.handle, code, addr, count, cs_disasm, cs_errno),
        ensures
            disassembled(self@.handle, code, addr, count, cs_disasm, cs_errno, r),
    {
        let insns = cs_disasm(self.csh, code, addr, count);
        if insns.len() == 0 {
            match self.error_result(cs_errno) {
                Ok(_) => Ok(Instructions::new_empty()),
                Err(err) => Err(err),
            }
        } else {
            Ok(Instructions::from_insns(insns))
        }
    }

    /// Returns the combined mode bits, which is useful for debugging.
    pub fn raw_mode(&self) -> (r: i32)
        requires
            self.wf(),
        ensures
            r == self@.raw_mode(),
    {
        self.raw_mode
    }

    /// Updates the combination of `mode`, `extra_mode` and `endian`, and returns it.
    fn update_raw_mode(&mut self) -> (r: i32)
        ensures
            final(self).wf(),
            final(self)@ == old(self)@,
            r == old(self)@.raw_mode(),
    {
        self.raw_mode = self.mode | self.extra_mode | self.endian;
        self.raw_mode
    }

    /// Combines the bits of extra modes.
    pub fn extra_mode_value<T: Iterator<Item = ExtraMode>>(extra_mode: T) -> (r: i32)
        requires
            extra_mode.obeys_prophetic_iter_laws(),
            extra_mode.decrease() is Some,
        ensures
            r == extra_mode_bits(extra_mode.remaining()),
    {
        let mut acc: i32 = 0;
        let mut rest = extra_mode;
        let ghost all = rest.remaining();
        let ghost mut n: int = 0;
        assert(all.skip(0) =~= all);
        loop
            invariant
                rest.obeys_prophetic_iter_laws(),
                rest.decrease() is Some,
                0 <= n <= all.len(),
                rest.remaining() == all.skip(n),
                acc == extra_mode_bits(all.take(n)),
            ensures
                n == all.len(),
            decreases rest.decrease()->0,
        {
            match rest.next() {
                Some(x) => {
                    proof {
                        assert(all.take(n + 1).drop_last() =~= all.take(n));
                        assert(all.skip(n).drop_first() =~= all.skip(n + 1));
                        n = n + 1;
                    }
                    acc = acc | x.bits();
                },
                None => {
                    break;
                },
            }
        }
        assert(all.take(n) =~= all);
        acc
    }

    /// Sets the extra modes, in place of the present ones.
    ///
    /// On success the mode bits of the engine are those of the session. On failure the session
    /// stays as it was.
    ///
    /// `cs_option` sets an option of the engine with a handle, and answers with an error code.
    pub fn set_extra_mode<
        T: Iterator<Item = ExtraMode>,
        F: FnOnce(usize, OptType, usize) -> u32,
    >(&mut self, extra_mode: T, cs_option: F) -> (r: CsResult<()>)
        requires
            old(self).wf(),
            extra_mode.obeys_prophetic_iter_laws(),
            extra_mode.decrease() is Some,
            call_requires(cs_option, Change::ExtraMode(extra_mode.remaining()).call(old(self)@)),
        ensures
            final(self).wf(),
            Change::ExtraMode(extra_mode.remaining()).tried(
                cs_option,
                old(self)@,
                final(self)@,
                r,
            ),
            final(self)@ == (Session { extra_mode: final(self)@.extra_mode, ..old(self)@ }),
            r is Err ==> final(self)@ == old(self)@,
    {
        let old_val: i32 = self.extra_mode;

        self.extra_mode = Self::extra_mode_value(extra_mode);

        // The engine decodes Mips32r6 as 64-bit code if the 32-bit base mode is not set as well.
        if self.arch == Arch::MIPS && self.mode == CS_MODE_MIPS32R6 {
            self.extra_mode = self.extra_mode | CS_MODE_32;
        }
        let old_mode: i32 = self.raw_mode;
        let new_mode: i32 = self.update_raw_mode();
        let result = self._set_cs_option(OptType::Mode, new_mode as usize, cs_option);

        if result.is_err() {
            // On error, restore old values
            self.raw_mode = old_mode;
            self.extra_mode = old_val;
        }
        result
    }

    /// Sets the assembly syntax (has no effect on some architectures).
    pub fn set_syntax<F: FnOnce(usize, OptType, usize) -> u32>(
        &mut self,
        syntax: Syntax,
        cs_option: F,
    ) -> (r: CsResult<()>)
        requires
            old(self).wf(),
            call_requires(cs_option, Change::Syntax(syntax).call(old(self)@)),
        ensures
            final(self).wf(),
            Change::Syntax(syntax).tried(cs_option, old(self)@, final(self)@, r),
            r is Ok ==> final(self)@ == (Session { syntax: syntax.code(), ..old(self)@ }),
            r is Err ==> final(self)@ == old(self)@,
    {
        let syntax_int: u32 = syntax.code();
        let result = self._set_cs_option(OptType::Syntax, syntax_int as usize, cs_option);

        if result.is_ok() {
            self.syntax = syntax_int;
        }
        result
    }

    /// Sets the byte order (has no effect on some architectures).
    ///
    /// On failure the session stays as it was. Some engines cannot change the byte order once they
    /// are open.
    pub fn set_endian<F: FnOnce(usize, OptType, usize) -> u32>(
        &mut self,
        endian: Endian,
        cs_option: F,
    ) -> (r: CsResult<()>)
        requires
            old(self).wf(),
            call_requires(cs_option, Change::Endian(endian).call(old(self)@)),
        ensures
            final(self).wf(),
            Change::Endian(endian).tried(cs_option, old(self)@, final(self)@, r),
            r is Ok ==> final(self)@ == (Session { endian: endian.bits(), ..old(self)@ }),
            r is Err ==> final(self)@ == old(self)@,
    {
        let old_val: i32 = self.endian;
        self.endian = endian.bits();

        let old_raw_mode: i32 = self.raw_mode;
        let new_raw_mode: i32 = self.update_raw_mode();

        let result = self._set_cs_option(OptType::Mode, new_raw_mode as usize, cs_option);

        if result.is_err() {
            // On error, restore old values
            self.raw_mode = old_raw_mode;
            self.endian = old_val;
        }
        result
    }

    /// Sets the disassembly mode. Various combinations of modes are not supported.
    ///
    /// On failure the session stays as it was.
    pub fn set_mode<F: FnOnce(usize, OptType, usize) -> u32>(
        &mut self,
        mode: Mode,
        cs_option: F,
    ) -> (r: CsResult<()>)
        requires
            old(self).wf(),
            call_requires(cs_option, Change::Mode(mode).call(old(self)@)),
        ensures
            final(self).wf(),
            Change::Mode(mode).tried(cs_option, old(self)@, final(self)@, r),
            r is Ok ==> final(self)@ == (Session { mode: mode.bits(), ..old(self)@ }),
            r is Err ==> final(self)@ == old(self)@,
    {
        let old_val: i32 = self.mode;
        self.mode = mode.bits();

        let old_raw_mode: i32 = self.raw_mode;
        let new_raw_mode: i32 = self.update_raw_mode();

        let result = self._set_cs_option(OptType::Mode, new_raw_mode as usize, cs_option);

        if result.is_err() {
            // On error, restore old values
            self.raw_mode = old_raw_mode;
            self.mode = old_val;
        }
        result
    }

    /// Asks the engine for the code of its last error, and turns it into a result.
    fn error_result<E: FnOnce(usize) -> u32>(&self, cs_errno: E) -> (r: CsResult<()>)
        requires
            call_requires(cs_errno, (self@.handle,)),
        ensures
            exists|errno: u32|
                {
                    &&& #[trigger] call_ensures(cs_errno, (self@.handle,), errno)
                    &&& r == cs_result(errno)
                },
    {
        let errno: u32 = cs_errno(self.csh);
        cs_result(errno)
    }

    /// Sets an option of the engine.
    fn _set_cs_option<F: FnOnce(usize, OptType, usize) -> u32>(
        &self,
        option_type: OptType,
        option_value: usize,
        cs_option: F,
    ) -> (r: CsResult<()>)
        requires
            call_requires(cs_option, (self@.handle, option_type, option_value)),
        ensures
            exists|code: u32|
                {
                    &&& #[trigger] call_ensures(
                        cs_option,
                        (self@.handle, option_type, option_value),
                        code,
                    )
                    &&& r == cs_result(code)
                },
    {
        let err: u32 = cs_option(self.csh, option_type, option_value);
        cs_result(err)
    }

    /// Controls whether disassembled instructions come with details.
    ///
    /// Pass `true` to switch details on, or `false` to switch them off.
    pub fn set_detail<F: FnOnce(usize, OptType, usize) -> u32>(
        &mut self,
        enable_detail: bool,
        cs_option: F,
    ) -> (r: CsResult<()>)
        requires
            old(self).wf(),
            call_requires(cs_option, Change::Detail(enable_detail).call(old(self)@)),
        ensures
            final(self).wf(),
            Change::Detail(enable_detail).tried(cs_option, old(self)@, final(self)@, r),
            r is Ok ==> final(self)@ == (Session { detail: enable_detail, ..old(self)@ }),
            r is Err ==> final(self)@ == old(self)@,
    {
        let option_value: usize = OptValue::from(enable_detail).0 as usize;
        let result = self._set_cs_option(OptType::Detail, option_value, cs_option);

        // Only update internal state on success
        if result.is_ok() {
            self.detail_enabled = enable_detail;
        }
        result
    }

    /// Returns whether disassembled instructions come with details.
    pub fn detail_enabled(&self) -> (r: bool)
        ensures
            r == self@.detail,
    {
        self.detail_enabled
    }

    /// Returns the name of a register.
    ///
    /// `cs_reg_name` answers with the bytes of the name, without the closing zero byte, or `None`.
    pub fn reg_name<N: FnOnce(usize, u32) -> Option<Vec<u8>>>(
        &self,
        reg_id: RegId,
        cs_reg_name: N,
    ) -> (r: Option<String>)
        requires
            call_requires(cs_reg_name, (self@.handle, reg_id.0 as u32)),
        ensures
            named(self@.handle, reg_id.0 as u32, cs_reg_name, r),
    {
        let name = cs_reg_name(self.csh, reg_id.0 as u32);
        name_text(name)
    }

    /// Returns the name of an instruction.
    ///
    /// The current syntax plays no part: the name is that of the default syntax.
    pub fn insn_name<N: FnOnce(usize, u32) -> Option<Vec<u8>>>(
        &self,
        insn_id: InsnId,
        cs_insn_name: N,
    ) -> (r: Option<String>)
        requires
            call_requires(cs_insn_name, (self@.handle, insn_id.0)),
        ensures
            named(self@.handle, insn_id.0, cs_insn_name, r),
    {
        let name = cs_insn_name(self.csh, insn_id.0);
        name_text(name)
    }

    /// Returns the name of a group.
    pub fn group_name<N: FnOnce(usize, u32) -> Option<Vec<u8>>>(
        &self,
        group_id: InsnGroupId,
        cs_group_name: N,
    ) -> (r: Option<String>)
        requires
            call_requires(cs_group_name, (self@.handle, group_id.0 as u32)),
        ensures
            named(self@.handle, group_id.0 as u32, cs_group_name, r),
    {
        let name = cs_group_name(self.csh, group_id.0 as u32);
        name_text(name)
    }

    /// Returns the details of an instruction.
    ///
    /// Requires:
    ///
    /// 1. The instruction was created with details on
    /// 2. The instruction does not stand for bytes skipped as data
    /// 3. The engine was not built in diet mode
    pub fn insn_detail<'s, 'i: 's, S: FnOnce(i32) -> bool>(
        &'s self,
        insn: &'i Insn,
        cs_support: S,
    ) -> (r: CsResult<InsnDetail<'i>>)
        requires
            detail_ready(self@, *insn, cs_support),
        ensures
            match r {
                Ok(d) => {
                    &&& detail_asked(self@, *insn, cs_support, None)
                    &&& insn.detail == Some(*d.detail)
                    &&& d.arch == self@.arch
                },
                Err(e) => e matches Error::Capstone(c) && detail_asked(
                    self@,
                    *insn,
                    cs_support,
                    Some(c),
                ),
            },
    {
        if !self.detail_enabled {
            Err(Error::Capstone(CapstoneError::DetailOff))
        } else if insn.id().0 == 0 {
            Err(Error::Capstone(CapstoneError::IrrelevantDataInSkipData))
        } else if Self::is_diet(cs_support) {
            Err(Error::Capstone(CapstoneError::IrrelevantDataInDiet))
        } else {
            Ok(insn.detail(self.arch))
        }
    }

    /// Returns whether an instruction belongs to a group.
    ///
    /// Fails as [`Capstone::insn_detail`] does; otherwise the engine decides.
    pub fn insn_belongs_to_group<S: FnOnce(i32) -> bool, G: FnOnce(usize, &Insn, u32) -> bool>(
        &self,
        insn: &Insn,
        group_id: InsnGroupId,
        cs_support: S,
        cs_insn_group: G,
    ) -> (r: CsResult<bool>)
        requires
            query_ready(self@, insn, group_id.0 as u32, cs_support, cs_insn_group),
        ensures
            query_answered(self@, insn, group_id.0 as u32, cs_support, cs_insn_group, r),
    {
        match self.insn_detail(insn, cs_support) {
            Ok(_) => Ok(cs_insn_group(self.csh, insn, group_id.0 as u32)),
            Err(e) => Err(e),
        }
    }

    /// Returns the groups to which an instruction belongs.
    ///
    /// Fails as [`Capstone::insn_detail`] does.
    pub fn insn_group_ids<'i, S: FnOnce(i32) -> bool>(
        &self,
        insn: &'i Insn,
        cs_support: S,
    ) -> (r: CsResult<InsnGroupIter<'i>>)
        requires
            detail_ready(self@, *insn, cs_support),
        ensures
            detail_read(
                self@,
                *insn,
                cs_support,
                group_ids(insn.detail->0.groups@),
                match r {
                    Ok(ids) => Ok(ids.rest()),
                    Err(e) => Err(e),
                },
            ),
    {
        match self.insn_detail(insn, cs_support) {
            Ok(detail) => Ok(detail.groups()),
            Err(e) => Err(e),
        }
    }

    /// Checks whether an instruction implicitly reads a register.
    ///
    /// Fails as [`Capstone::insn_detail`] does; otherwise the engine decides.
    pub fn register_id_is_read<S: FnOnce(i32) -> bool, G: FnOnce(usize, &Insn, u32) -> bool>(
        &self,
        insn: &Insn,
        reg_id: RegId,
        cs_support: S,
        cs_reg_read: G,
    ) -> (r: CsResult<bool>)
        requires
            query_ready(self@, insn, reg_id.0 as u32, cs_support, cs_reg_read),
        ensures
            query_answered(self@, insn, reg_id.0 as u32, cs_support, cs_reg_read, r),
    {
        match self.insn_detail(insn, cs_support) {
            Ok(_) => Ok(cs_reg_read(self.csh, insn, reg_id.0 as u32)),
            Err(e) => Err(e),
        }
    }

    /// Returns all registers that an instruction accesses, explicitly or implicitly: those it
    /// reads, and those it writes.
    ///
    /// Fails as [`Capstone::insn_detail`] does; otherwise the engine decides. `cs_regs_access`
    /// fills the two buffers it is handed.
    pub fn access<
        S: FnOnce(i32) -> bool,
        A: FnOnce(usize, &Insn, [u16; REGS_BUFFER], [u16; REGS_BUFFER]) -> RegsAccess,
    >(&self, insn: &Insn, cs_support: S, cs_regs_access: A) -> (r: CsResult<(Vec<u16>, Vec<u16>)>)
        requires
            detail_ready(self@, *insn, cs_support),
            detail_granted(self@, *insn, cs_support) ==> forall|
                read: [u16; REGS_BUFFER],
                write: [u16; REGS_BUFFER],
            |
                read@ == zeros() && write@ == zeros() ==> #[trigger] call_requires(
                    cs_regs_access,
                    (self@.handle, insn, read, write),
                ),
        ensures
            ({
                ||| r matches Err(Error::Capstone(c)) && detail_asked(
                    self@,
                    *insn,
                    cs_support,
                    Some(c),
                )
                ||| {
                    &&& detail_asked(self@, *insn, cs_support, None)
                    &&& exists|reply: RegsAccess|
                        {
                            &&& #[trigger] access_asked(self@.handle, insn, cs_regs_access, reply)
                            &&& reply.yields(r)
                        }
                }
            }),
            r matches Ok(regs) ==> regs.0@.len() <= REGS_BUFFER && regs.1@.len() <= REGS_BUFFER,
    {
        match self.insn_detail(insn, cs_support) {
            Ok(_) => {
                let regs_read: [u16; REGS_BUFFER] = [0u16; REGS_BUFFER];
                let regs_write: [u16; REGS_BUFFER] = [0u16; REGS_BUFFER];
                assert(regs_read@ =~= zeros());
                assert(regs_write@ =~= zeros());
                assert(call_requires(
                    cs_regs_access,
                    (self@.handle, insn, regs_read, regs_write),
                ));
                let reply = cs_regs_access(self.csh, insn, regs_read, regs_write);
                assert(access_asked(self@.handle, insn, cs_regs_access, reply));
                reply.registers()
            },
            Err(e) => Err(e),
        }
    }

    /// Returns the registers that an instruction implicitly reads.
    ///
    /// Fails as [`Capstone::insn_detail`] does.
    pub fn read_register_ids<'i, S: FnOnce(i32) -> bool>(
        &self,
        insn: &'i Insn,
        cs_support: S,
    ) -> (r: CsResult<RegsIter<'i>>)
        requires
            detail_ready(self@, *insn, cs_support),
        ensures
            detail_read(
                self@,
                *insn,
                cs_support,
                reg_ids(insn.detail->0.regs_read@),
                match r {
                    Ok(ids) => Ok(ids.rest()),
                    Err(e) => Err(e),
                },
            ),
    {
        match self.insn_detail(insn, cs_support) {
            Ok(detail) => Ok(detail.regs_read()),
            Err(e) => Err(e),
        }
    }

    /// Checks whether an instruction implicitly writes to a register.
    ///
    /// Fails as [`Capstone::insn_detail`] does; otherwise the engine decides.
    pub fn register_id_is_written<S: FnOnce(i32) -> bool, G: FnOnce(usize, &Insn, u32) -> bool>(
        &self,
        insn: &Insn,
        reg_id: RegId,
        cs_support: S,
        cs_reg_write: G,
    ) -> (r: CsResult<bool>)
        requires
            query_ready(self@, insn, reg_id.0 as u32, cs_support, cs_reg_write),
        ensures
            query_answered(self@, insn, reg_id.0 as u32, cs_support, cs_reg_write, r),
    {
        match self.insn_detail(insn, cs_support) {
            Ok(_) => Ok(cs_reg_write(self.csh, insn, reg_id.0 as u32)),
            Err(e) => Err(e),
        }
    }

    /// Returns the registers that an instruction implicitly writes to.
    ///
    /// Fails as [`Capstone::insn_detail`] does.
    pub fn write_register_ids<'i, S: FnOnce(i32) -> bool>(
        &self,
        insn: &'i Insn,
        cs_support: S,
    ) -> (r: CsResult<RegsIter<'i>>)
        requires
            detail_ready(self@, *insn, cs_support),
        ensures
            detail_read(
                self@,
                *insn,
                cs_support,
                reg_ids(insn.detail->0.regs_write@),
                match r {
                    Ok(ids) => Ok(ids.rest()),
                    Err(e) => Err(e),
                },
            ),
    {
        match self.insn_detail(insn, cs_support) {
            Ok(detail) => Ok(detail.regs_write()),
            Err(e) => Err(e),
        }
    }

    /// Returns the version of the engine, as a major and a minor number.
    ///
    /// `cs_version` answers with the two numbers.
    pub fn lib_version<V: FnOnce() -> (i32, i32)>(cs_version: V) -> (r: (u32, u32))
        requires
            call_requires(cs_version, ()),
        ensures
            exists|version: (i32, i32)|
                {
                    &&& #[trigger] call_ensures(cs_version, (), version)
                    &&& r == (version.0 as u32, version.1 as u32)
                },
    {
        let (major, minor) = cs_version();
        (major as u32, minor as u32)
    }

    /// Returns whether the engine supports an architecture.
    ///
    /// `cs_support` answers a support query of the engine.
    pub fn supports_arch<S: FnOnce(i32) -> bool>(arch: Arch, cs_support: S) -> (r: bool)
        requires
            call_requires(cs_support, (arch.number(),)),
        ensures
            call_ensures(cs_support, (arch.number(),), r),
    {
        cs_support(arch.number())
    }

    /// Returns whether the engine was built in diet mode.
    pub fn is_diet<S: FnOnce(i32) -> bool>(cs_support: S) -> (r: bool)
        requires
            call_requires(cs_support, (CS_SUPPORT_DIET,)),
        ensures
            call_ensures(cs_support, (CS_SUPPORT_DIET,), r),
    {
        cs_support(CS_SUPPORT_DIET)
    }

    /// Closes the engine, and gives up the session.
    ///
    /// `cs_close` closes the engine with a handle. It answers with an error code, which is ignored.
    pub fn close<C: FnOnce(usize) -> u32>(self, cs_close: C)
        requires
            call_requires(cs_close, (self@.handle,)),
        ensures
            closed(self@.handle, cs_close),
    {
        let _ = cs_close(self.csh);
    }
}

} // verus!

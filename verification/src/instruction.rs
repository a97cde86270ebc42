//! Disassembled instructions.

use crate::constants::Arch;
use crate::error::{cs_result, CsResult, Error};
use vstd::prelude::*;
use vstd::slice::slice_to_vec;
use vstd::std_specs::iter::IteratorSpecImpl;

verus! {

/// The number of an instruction mnemonic. Bytes skipped as data have the number 0.
#[derive(Clone, Copy, Debug, PartialEq, Eq, PartialOrd, Ord, Hash, Structural)]
pub struct InsnId(pub u32);

/// The number of a register.
#[derive(Clone, Copy, Debug, PartialEq, Eq, PartialOrd, Ord, Hash, Structural)]
pub struct RegId(pub u16);

/// The number of an instruction group.
#[derive(Clone, Copy, Debug, PartialEq, Eq, PartialOrd, Ord, Hash, Structural)]
pub struct InsnGroupId(pub u8);

/// What the engine adds to an instruction when the detail option is on.
#[derive(Debug, PartialEq, Eq, Hash)]
pub struct Detail {
    /// The registers that the instruction reads implicitly.
    pub regs_read: Vec<u16>,
    /// The registers that the instruction writes implicitly.
    pub regs_write: Vec<u16>,
    /// The groups that the instruction belongs to.
    pub groups: Vec<u8>,
}

/// A disassembled instruction.
#[derive(Debug, PartialEq, Eq, Hash)]
pub struct Insn {
    /// The number of the mnemonic.
    pub id: u32,
    /// The address of the first byte.
    pub address: u64,
    /// The machine code.
    pub bytes: Vec<u8>,
    /// The mnemonic, as text.
    pub mnemonic: String,
    /// The operands, as text.
    pub op_str: String,
    /// The details, where the instruction was disassembled with the detail option on.
    pub detail: Option<Detail>,
}

/// Two details say the same.
pub open spec fn same_detail(a: Detail, b: Detail) -> bool {
    &&& a.regs_read@ == b.regs_read@
    &&& a.regs_write@ == b.regs_write@
    &&& a.groups@ == b.groups@
}

/// Two instructions say the same: the same code at the same address, with the same mnemonic,
/// operands and details.
pub open spec fn same_insn(a: Insn, b: Insn) -> bool {
    &&& a.id == b.id
    &&& a.address == b.address
    &&& a.bytes@ == b.bytes@
    &&& a.mnemonic@ == b.mnemonic@
    &&& a.op_str@ == b.op_str@
    &&& match (a.detail, b.detail) {
        (Some(x), Some(y)) => same_detail(x, y),
        (None, None) => true,
        _ => false,
    }
}

impl Insn {
    /// The number of the mnemonic.
    pub fn id(&self) -> (r: InsnId)
        ensures
            r == InsnId(self.id),
    {
        InsnId(self.id)
    }

    /// Whether the instruction carries details.
    pub fn has_detail(&self) -> (r: bool)
        ensures
            r == (self.detail is Some),
    {
        self.detail.is_some()
    }

    /// The details of the instruction, read as details for `arch`.
    pub(crate) fn detail<'i>(&'i self, arch: Arch) -> (r: InsnDetail<'i>)
        requires
            self.detail is Some,
        ensures
            r == (InsnDetail { detail: &self.detail->0, arch }),
    {
        InsnDetail { detail: self.detail.as_ref().unwrap(), arch }
    }
}

/// The details of an instruction, together with the architecture they are for.
#[derive(Clone, Copy, Debug, PartialEq, Eq, Hash)]
pub struct InsnDetail<'i> {
    /// The details.
    pub detail: &'i Detail,
    /// The architecture.
    pub arch: Arch,
}

impl<'i> InsnDetail<'i> {
    /// The groups that the instruction belongs to.
    pub fn groups(&self) -> (r: InsnGroupIter<'i>)
        ensures
            r.rest() == group_ids(self.detail.groups@),
    {
        let r = InsnGroupIter { groups: self.detail.groups.as_slice(), at: 0 };
        assert(r.rest() =~= group_ids(self.detail.groups@));
        r
    }

    /// The registers that the instruction reads implicitly.
    pub fn regs_read(&self) -> (r: RegsIter<'i>)
        ensures
            r.rest() == reg_ids(self.detail.regs_read@),
    {
        let r = RegsIter { regs: self.detail.regs_read.as_slice(), at: 0 };
        assert(r.rest() =~= reg_ids(self.detail.regs_read@));
        r
    }

    /// The registers that the instruction writes implicitly.
    pub fn regs_write(&self) -> (r: RegsIter<'i>)
        ensures
            r.rest() == reg_ids(self.detail.regs_write@),
    {
        let r = RegsIter { regs: self.detail.regs_write.as_slice(), at: 0 };
        assert(r.rest() =~= reg_ids(self.detail.regs_write@));
        r
    }
}

/// The group numbers of `raw`, in order.
pub open spec fn group_ids(raw: Seq<u8>) -> Seq<InsnGroupId> {
    raw.map_values(|g: u8| InsnGroupId(g))
}

/// The register numbers of `raw`, in order.
pub open spec fn reg_ids(raw: Seq<u16>) -> Seq<RegId> {
    raw.map_values(|r: u16| RegId(r))
}

/// Hands out the groups of an instruction, one after the other.
#[derive(Debug)]
pub struct InsnGroupIter<'i> {
    groups: &'i [u8],
    at: usize,
}

impl<'i> InsnGroupIter<'i> {
    #[verifier::type_invariant]
    spec fn in_bounds(self) -> bool {
        self.at <= self.groups@.len()
    }

    /// The groups that are still to come.
    pub closed spec fn rest(self) -> Seq<InsnGroupId> {
        group_ids(self.groups@.skip(self.at as int))
    }
}

impl<'i> Iterator for InsnGroupIter<'i> {
    type Item = InsnGroupId;

    fn next(&mut self) -> (r: Option<InsnGroupId>) {
        proof {
            use_type_invariant(&*self);
        }
        if self.at == self.groups.len() {
            None
        } else {
            let id = InsnGroupId(self.groups[self.at]);
            assert(self.rest().drop_first() =~= group_ids(self.groups@.skip(self.at + 1)));
            self.at += 1;
            Some(id)
        }
    }
}

impl<'i> IteratorSpecImpl for InsnGroupIter<'i> {
    open spec fn obeys_prophetic_iter_laws(&self) -> bool {
        true
    }

    open spec fn remaining(&self) -> Seq<InsnGroupId> {
        self.rest()
    }

    open spec fn will_return_none(&self) -> bool {
        true
    }

    open spec fn decrease(&self) -> Option<nat> {
        Some(self.rest().len())
    }

    open spec fn initial_value_relation(&self, init: &Self) -> bool {
        self.rest() == init.rest()
    }

    open spec fn peek(&self, index: int) -> Option<InsnGroupId> {
        None
    }
}

/// Hands out registers of an instruction, one after the other.
#[derive(Debug)]
pub struct RegsIter<'i> {
    regs: &'i [u16],
    at: usize,
}

impl<'i> RegsIter<'i> {
    #[verifier::type_invariant]
    spec fn in_bounds(self) -> bool {
        self.at <= self.regs@.len()
    }

    /// The registers that are still to come.
    pub closed spec fn rest(self) -> Seq<RegId> {
        reg_ids(self.regs@.skip(self.at as int))
    }
}

impl<'i> Iterator for RegsIter<'i> {
    type Item = RegId;

    fn next(&mut self) -> (r: Option<RegId>) {
        proof {
            use_type_invariant(&*self);
        }
        if self.at == self.regs.len() {
            None
        } else {
            let id = RegId(self.regs[self.at]);
            assert(self.rest().drop_first() =~= reg_ids(self.regs@.skip(self.at + 1)));
            self.at += 1;
            Some(id)
        }
    }
}

impl<'i> IteratorSpecImpl for RegsIter<'i> {
    open spec fn obeys_prophetic_iter_laws(&self) -> bool {
        true
    }

    open spec fn remaining(&self) -> Seq<RegId> {
        self.rest()
    }

    open spec fn will_return_none(&self) -> bool {
        true
    }

    open spec fn decrease(&self) -> Option<nat> {
        Some(self.rest().len())
    }

    open spec fn initial_value_relation(&self, init: &Self) -> bool {
        self.rest() == init.rest()
    }

    open spec fn peek(&self, index: int) -> Option<RegId> {
        None
    }
}

/// The number of entries in a register buffer that the engine fills.
pub const REGS_BUFFER: usize = 64;

/// The first `count` of `regs`, or all of them where there are fewer.
pub open spec fn first_regs(regs: Seq<u16>, count: u8) -> Seq<u16> {
    if count <= regs.len() {
        regs.take(count as int)
    } else {
        regs
    }
}

/// What the engine answers when it is asked which registers an instruction accesses: an error
/// code, and two buffers with the number of registers that each holds.
#[derive(Debug, PartialEq, Eq, Hash)]
pub struct RegsAccess {
    /// The error code.
    pub code: u32,
    /// The buffer of registers that are read.
    pub regs_read: [u16; REGS_BUFFER],
    /// How many registers are read.
    pub regs_read_count: u8,
    /// The buffer of registers that are written.
    pub regs_write: [u16; REGS_BUFFER],
    /// How many registers are written.
    pub regs_write_count: u8,
}

impl RegsAccess {
    /// What the answer comes to: the registers that are read and those that are written, each
    /// buffer cut to the number that it holds, or the error that the code stands for.
    pub open spec fn yields(self, r: CsResult<(Vec<u16>, Vec<u16>)>) -> bool {
        match cs_result(self.code) {
            Ok(_) => {
                &&& r matches Ok(regs)
                &&& regs.0@ == first_regs(self.regs_read@, self.regs_read_count)
                &&& regs.1@ == first_regs(self.regs_write@, self.regs_write_count)
            },
            Err(e) => r == Err::<(Vec<u16>, Vec<u16>), Error>(e),
        }
    }

    /// The registers that are read and those that are written, or the error that the engine
    /// reports.
    pub fn registers(self) -> (r: CsResult<(Vec<u16>, Vec<u16>)>)
        ensures
            self.yields(r),
            r matches Ok(regs) ==> regs.0@.len() <= REGS_BUFFER && regs.1@.len() <= REGS_BUFFER,
            r is Ok <==> self.code == 0,
            r matches Ok(regs) ==> {
                &&& regs.0@.is_prefix_of(self.regs_read@)
                &&& regs.1@.is_prefix_of(self.regs_write@)
            },
    {
        match cs_result(self.code) {
            Ok(_) => {
                let mut regs_read = slice_to_vec(self.regs_read.as_slice());
                let mut regs_write = slice_to_vec(self.regs_write.as_slice());
                regs_read.truncate(self.regs_read_count as usize);
                regs_write.truncate(self.regs_write_count as usize);
                Ok((regs_read, regs_write))
            },
            Err(e) => Err(e),
        }
    }
}

/// The instructions that one call disassembled.
#[derive(Debug, PartialEq, Eq, Hash)]
pub struct Instructions {
    insns: Vec<Insn>,
}

impl View for Instructions {
    type V = Seq<Insn>;

    closed spec fn view(&self) -> Seq<Insn> {
        self.insns@
    }
}

impl Instructions {
    /// No instructions.
    pub fn new_empty() -> (r: Instructions)
        ensures
            r@ == Seq::<Insn>::empty(),
    {
        Instructions { insns: Vec::new() }
    }

    /// The instructions `insns`, in their order.
    pub fn from_insns(insns: Vec<Insn>) -> (r: Instructions)
        ensures
            r@ == insns@,
    {
        Instructions { insns }
    }

    /// The number of instructions.
    pub fn len(&self) -> (r: usize)
        ensures
            r == self@.len(),
    {
        self.insns.len()
    }

    /// Whether there are no instructions.
    pub fn is_empty(&self) -> (r: bool)
        ensures
            r == (self@.len() == 0),
    {
        self.insns.len() == 0
    }

    /// The instruction at position `i`, if there are more than `i`.
    pub fn get(&self, i: usize) -> (r: Option<&Insn>)
        ensures
            r == (if i < self@.len() { Some(&self@[i as int]) } else { None }),
    {
        if i < self.insns.len() {
            Some(&self.insns[i])
        } else {
            None
        }
    }
}

} // verus!

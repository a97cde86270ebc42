use capstone::{
    Arch, Capstone, CapstoneError, Detail, Error, Insn, InsnGroupId, InsnId, Mode, RegId,
    RegsAccess, Syntax, NO_EXTRA_MODE,
};

const HANDLE: usize = 99;

fn open(detail: bool) -> Capstone {
    let mut cs =
        Capstone::new_raw(Arch::X86, Mode::Mode32, NO_EXTRA_MODE, None, |_, _| (0, HANDLE))
            .unwrap();
    cs.set_detail(detail, |_, _, _| 0).unwrap();
    cs
}

fn insn(id: u32) -> Insn {
    Insn {
        id,
        address: 0x1000,
        bytes: vec![0x90],
        mnemonic: String::from("nop"),
        op_str: String::new(),
        detail: Some(Detail {
            regs_read: vec![30, 25],
            regs_write: vec![25],
            groups: vec![2, 145, 7],
        }),
    }
}

fn full(query: i32) -> bool {
    assert_eq!(query, 65536);
    false
}

fn diet(query: i32) -> bool {
    assert_eq!(query, 65536);
    true
}

fn unasked(_query: i32) -> bool {
    panic!("the engine was asked");
}

fn refused<T>(e: CapstoneError) -> Result<T, Error> {
    Err(Error::Capstone(e))
}

#[test]
fn disasm_all_hands_the_buffer_over() {
    let cs = open(false);
    let r = cs.disasm_all(
        &[0x90, 0xc3],
        0x1000,
        |h, code, addr, count| {
            assert_eq!((h, code, addr, count), (HANDLE, &[0x90u8, 0xc3][..], 0x1000, 0));
            vec![insn(1), insn(2)]
        },
        |_| panic!("the engine was asked for an error"),
    );
    let insns = r.unwrap();
    assert_eq!(insns.len(), 2);
    assert!(!insns.is_empty());
    assert_eq!(insns.get(0).unwrap().id(), InsnId(1));
    assert_eq!(insns.get(1).unwrap().id(), InsnId(2));
    assert_eq!(insns.get(2), None);
}

#[test]
fn nothing_found_is_no_error_by_itself() {
    let cs = open(false);
    let r = cs.disasm_all(&[], 0, |_, _, _, _| Vec::new(), |h| {
        assert_eq!(h, HANDLE);
        0
    });
    assert!(r.unwrap().is_empty());
}

#[test]
fn nothing_found_can_be_an_error() {
    let cs = open(false);
    let r = cs.disasm_all(&[1], 0, |_, _, _, _| Vec::new(), |_| 1);
    assert_eq!(r, refused(CapstoneError::OutOfMemory));
}

#[test]
fn disasm_count_hands_the_count_over() {
    let cs = open(false);
    let r = cs.disasm_count(
        &[0x90],
        7,
        3,
        |h, _, addr, count| {
            assert_eq!((h, addr, count), (HANDLE, 7, 3));
            vec![insn(1)]
        },
        |_| 0,
    );
    assert_eq!(r.unwrap().len(), 1);
}

#[test]
fn a_counted_disassembly_is_the_start() {
    let cs = open(false);
    let engine = |_: usize, _: &[u8], _: u64, count: usize| -> Vec<Insn> {
        let found = [7, 8, 9];
        let n = if count == 0 { found.len() } else { count.min(found.len()) };
        found[..n].iter().map(|id| insn(*id)).collect()
    };
    let all = cs.disasm_all(&[1, 2, 3], 0, engine, |_| 0).unwrap();
    assert_eq!(all.len(), 3);
    for count in 1..6 {
        let part = cs.disasm_count(&[1, 2, 3], 0, count, engine, |_| 0).unwrap();
        assert_eq!(part.len(), count.min(3));
        for i in 0..part.len() {
            assert_eq!(part.get(i), all.get(i));
        }
    }
}

#[test]
fn disasm_count_refuses_zero() {
    let cs = open(false);
    let r = cs.disasm_count(
        &[0x90],
        0,
        0,
        |_, _, _, _| panic!("the engine was asked"),
        |_| panic!("the engine was asked for an error"),
    );
    assert_eq!(r, Err(Error::CustomError("Invalid dissasemble count; must be > 0")));
}

#[test]
fn names_are_decoded() {
    let cs = open(false);
    let reg = cs.reg_name(RegId(19), |h, id| {
        assert_eq!((h, id), (HANDLE, 19));
        Some(b"eax".to_vec())
    });
    assert_eq!(reg, Some(String::from("eax")));
    let name = cs.insn_name(InsnId(70000), |h, id| {
        assert_eq!((h, id), (HANDLE, 70000));
        Some("m\u{f6}v".as_bytes().to_vec())
    });
    assert_eq!(name, Some(String::from("m\u{f6}v")));
    let group = cs.group_name(InsnGroupId(255), |h, id| {
        assert_eq!((h, id), (HANDLE, 255));
        Some(vec![b'a', 0xff, b'b'])
    });
    assert_eq!(group, Some(String::from("a\u{fffd}b")));
}

#[test]
fn unknown_names_are_none() {
    let cs = open(false);
    assert_eq!(cs.reg_name(RegId(6000), |_, _| None), None);
    assert_eq!(cs.insn_name(InsnId(6000), |_, _| None), None);
    assert_eq!(cs.group_name(InsnGroupId(250), |_, _| None), None);
}

#[test]
fn details_are_refused_in_order() {
    let off = open(false);
    assert_eq!(off.insn_detail(&insn(0), unasked), refused(CapstoneError::DetailOff));
    assert_eq!(off.insn_detail(&insn(5), unasked), refused(CapstoneError::DetailOff));
    let on = open(true);
    assert_eq!(
        on.insn_detail(&insn(0), unasked),
        refused(CapstoneError::IrrelevantDataInSkipData)
    );
    assert_eq!(on.insn_detail(&insn(5), diet), refused(CapstoneError::IrrelevantDataInDiet));
}

#[test]
fn details_are_readable_otherwise() {
    let cs = open(true);
    let i = insn(5);
    assert!(i.has_detail());
    let d = cs.insn_detail(&i, full).unwrap();
    assert_eq!(d.arch, Arch::X86);
    assert_eq!(Some(d.detail), i.detail.as_ref());
}

#[test]
fn groups_and_registers_come_in_order() {
    let cs = open(true);
    let i = insn(5);
    let groups: Vec<InsnGroupId> = cs.insn_group_ids(&i, full).unwrap().collect();
    assert_eq!(groups, vec![InsnGroupId(2), InsnGroupId(145), InsnGroupId(7)]);
    let read: Vec<RegId> = cs.read_register_ids(&i, full).unwrap().collect();
    assert_eq!(read, vec![RegId(30), RegId(25)]);
    let written: Vec<RegId> = cs.write_register_ids(&i, full).unwrap().collect();
    assert_eq!(written, vec![RegId(25)]);
}

#[test]
fn the_engine_decides_on_membership() {
    let cs = open(true);
    let i = insn(5);
    let group = cs.insn_belongs_to_group(&i, InsnGroupId(200), full, |h, x, id| {
        assert_eq!((h, x.id, id), (HANDLE, 5, 200));
        true
    });
    assert_eq!(group, Ok(true));
    let read = cs.register_id_is_read(&i, RegId(300), full, |h, x, id| {
        assert_eq!((h, x.id, id), (HANDLE, 5, 300));
        false
    });
    assert_eq!(read, Ok(false));
    let written = cs.register_id_is_written(&i, RegId(65535), full, |h, x, id| {
        assert_eq!((h, x.id, id), (HANDLE, 5, 65535));
        true
    });
    assert_eq!(written, Ok(true));
}

#[test]
fn queries_fail_as_details_do() {
    let i = insn(5);
    let off = open(false);
    let e = CapstoneError::DetailOff;
    assert_eq!(
        off.insn_belongs_to_group(&i, InsnGroupId(1), unasked, |_, _, _| true),
        refused(e)
    );
    assert_eq!(off.register_id_is_read(&i, RegId(1), unasked, |_, _, _| true), refused(e));
    assert_eq!(off.register_id_is_written(&i, RegId(1), unasked, |_, _, _| true), refused(e));
    assert_eq!(off.insn_group_ids(&i, unasked).err(), Some(Error::Capstone(e)));
    assert_eq!(off.read_register_ids(&i, unasked).err(), Some(Error::Capstone(e)));
    assert_eq!(off.write_register_ids(&i, unasked).err(), Some(Error::Capstone(e)));
    assert_eq!(
        off.access(&i, unasked, |_, _, _, _| panic!("the engine was asked")),
        refused(e)
    );
    let on = open(true);
    assert_eq!(
        on.access(&i, diet, |_, _, _, _| panic!("the engine was asked")),
        refused(CapstoneError::IrrelevantDataInDiet)
    );
}

#[test]
fn a_diet_engine_is_asked_nothing_more() {
    let on = open(true);
    let i = insn(5);
    let e = CapstoneError::IrrelevantDataInDiet;
    let query = |_: usize, _: &Insn, _: u32| -> bool { panic!("the engine was asked") };
    assert_eq!(on.insn_belongs_to_group(&i, InsnGroupId(2), diet, query), refused(e));
    assert_eq!(on.register_id_is_read(&i, RegId(30), diet, query), refused(e));
    assert_eq!(on.register_id_is_written(&i, RegId(25), diet, query), refused(e));
    assert_eq!(on.insn_group_ids(&i, diet).err(), Some(Error::Capstone(e)));
}

#[test]
fn queries_agree_with_lists() {
    let on = open(true);
    let i = insn(5);
    for id in 0..=255u8 {
        let g = InsnGroupId(id);
        let listed = on.insn_group_ids(&i, full).unwrap().any(|x| x == g);
        let asked = on.insn_belongs_to_group(&i, g, full, |_, x, id| {
            x.detail.as_ref().unwrap().groups.iter().any(|y| *y as u32 == id)
        });
        assert_eq!(asked, Ok(listed));
        let r = RegId(id as u16);
        let listed = on.read_register_ids(&i, full).unwrap().any(|x| x == r);
        let asked = on.register_id_is_read(&i, r, full, |_, x, id| {
            x.detail.as_ref().unwrap().regs_read.iter().any(|y| *y as u32 == id)
        });
        assert_eq!(asked, Ok(listed));
        let listed = on.write_register_ids(&i, full).unwrap().any(|x| x == r);
        let asked = on.register_id_is_written(&i, r, full, |_, x, id| {
            x.detail.as_ref().unwrap().regs_write.iter().any(|y| *y as u32 == id)
        });
        assert_eq!(asked, Ok(listed));
    }
}

#[test]
fn names_ignore_the_syntax() {
    let mut cs = open(false);
    let name = |h: usize, id: u32| {
        assert_eq!((h, id), (HANDLE, 3));
        Some(b"mov".to_vec())
    };
    let before = cs.insn_name(InsnId(3), name);
    cs.set_syntax(Syntax::Att, |_, _, _| 0).unwrap();
    assert_eq!(cs.insn_name(InsnId(3), name), before);
    cs.set_syntax(Syntax::Masm, |_, _, _| 14).unwrap_err();
    assert_eq!(cs.insn_name(InsnId(3), name), before);
    assert_eq!(before, Some(String::from("mov")));
}

#[test]
fn access_cuts_the_buffers() {
    let cs = open(true);
    let r = cs.access(&insn(5), full, |h, x, mut read, mut write| {
        assert_eq!((h, x.id), (HANDLE, 5));
        assert_eq!(read, [0u16; 64]);
        assert_eq!(write, [0u16; 64]);
        read[0] = 19;
        read[1] = 22;
        read[2] = 1;
        write[0] = 25;
        RegsAccess {
            code: 0,
            regs_read: read,
            regs_read_count: 2,
            regs_write: write,
            regs_write_count: 1,
        }
    });
    assert_eq!(r, Ok((vec![19, 22], vec![25])));
}

#[test]
fn access_gives_no_more_than_a_buffer_holds() {
    let mut regs = [0u16; 64];
    regs[63] = 9;
    let reply = RegsAccess {
        code: 0,
        regs_read: regs,
        regs_read_count: 255,
        regs_write: regs,
        regs_write_count: 0,
    };
    assert_eq!(reply.registers(), Ok((regs.to_vec(), vec![])));
    let reply = RegsAccess {
        code: 0,
        regs_read: regs,
        regs_read_count: 63,
        regs_write: regs,
        regs_write_count: 64,
    };
    assert_eq!(reply.registers(), Ok((vec![0; 63], regs.to_vec())));
}

#[test]
fn access_reports_the_error() {
    let cs = open(true);
    let r = cs.access(&insn(5), full, |_, _, read, write| RegsAccess {
        code: 2,
        regs_read: read,
        regs_read_count: 1,
        regs_write: write,
        regs_write_count: 1,
    });
    assert_eq!(r, refused(CapstoneError::UnsupportedArch));
}

#[test]
fn version_numbers() {
    assert_eq!(Capstone::lib_version(|| (4, 1)), (4, 1));
    assert_eq!(Capstone::lib_version(|| (-1, 0)), (u32::MAX, 0));
}

#[test]
fn support_queries() {
    assert!(Capstone::supports_arch(Arch::EVM, |q| q == 11));
    assert!(!Capstone::supports_arch(Arch::ARM, |q| q == 11));
    assert!(Capstone::is_diet(|q| q == 65536));
    assert!(!Capstone::is_diet(|q| q != 65536));
}

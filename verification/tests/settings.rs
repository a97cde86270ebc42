use capstone::arch::x86::ArchMode;
use capstone::{
    Arch, Capstone, CapstoneError, Endian, Error, ExtraMode, Mode, OptType, Syntax, NO_EXTRA_MODE,
};
use capstone_sys::{CS_MODE_32, CS_MODE_BIG_ENDIAN, CS_MODE_MICRO, CS_MODE_MIPS32R6};

const HANDLE: usize = 0x5eed;

fn accept(_handle: usize, _option: OptType, _value: usize) -> u32 {
    0
}

fn refuse(_handle: usize, _option: OptType, _value: usize) -> u32 {
    6
}

fn open(arch: Arch, mode: Mode) -> Capstone {
    Capstone::new_raw(arch, mode, NO_EXTRA_MODE, None, |_, _| (0, HANDLE)).unwrap()
}

fn test_set_extra_mode_helper(
    arch: Arch,
    mode: Mode,
    endian: Endian,
    extra_modes: &[ExtraMode],
    expected_raw_mode: i32,
) {
    let mut cs = open(arch, mode);
    cs.set_endian(endian, accept).unwrap();
    let mut seen = None;
    cs.set_extra_mode(extra_modes.iter().map(|x| *x), |h, o, v| {
        seen = Some((h, o, v));
        0
    })
    .unwrap();
    let actual_raw_mode = cs.raw_mode();
    assert_eq!(
        expected_raw_mode, actual_raw_mode,
        "Mismatched raw_mode: expected={:x}, actual={:x}",
        expected_raw_mode, actual_raw_mode
    );
    assert_eq!(seen, Some((HANDLE, OptType::Mode, expected_raw_mode as usize)));
}

#[test]
fn test_set_extra_mode() {
    test_set_extra_mode_helper(
        Arch::MIPS,
        Mode::Mips32R6,
        Endian::Big,
        &[ExtraMode::Micro],
        (CS_MODE_BIG_ENDIAN | CS_MODE_MIPS32R6 | CS_MODE_32 | CS_MODE_MICRO).0,
    );
}

#[test]
fn extra_modes_force_the_32_bit_base_only_for_mips32r6() {
    test_set_extra_mode_helper(
        Arch::MIPS,
        Mode::Mips3,
        Endian::Little,
        &[ExtraMode::Micro],
        32 | 16,
    );
    test_set_extra_mode_helper(Arch::ARM, Mode::M68k060, Endian::Little, &[ExtraMode::V8], 64);
    test_set_extra_mode_helper(Arch::MIPS, Mode::Mips32R6, Endian::Little, &[], 64 | 4);
}

#[test]
fn open_x86_64() {
    let mut seen = None;
    let cs = Capstone::new_raw(Arch::X86, Mode::Mode64, NO_EXTRA_MODE, None, |a, m| {
        seen = Some((a, m));
        (0, HANDLE)
    });
    assert!(cs.is_ok());
    assert_eq!(seen, Some((Arch::X86, 8)));
    assert_eq!(cs.unwrap().raw_mode(), 8);
}

#[test]
fn open_combines_all_modes() {
    let modes = [ExtraMode::MClass, ExtraMode::V8];
    let mut seen = None;
    let cs = Capstone::new_raw(
        Arch::ARM,
        Mode::Thumb,
        modes.iter().map(|x| *x),
        Some(Endian::Big),
        |a, m| {
            seen = Some((a, m));
            (0, HANDLE)
        },
    )
    .unwrap();
    let expected = -2147483648 | 16 | 32 | 64;
    assert_eq!(seen, Some((Arch::ARM, expected)));
    assert_eq!(cs.raw_mode(), expected);
    assert!(!cs.detail_enabled());
}

#[test]
fn open_does_not_force_the_32_bit_base() {
    assert_eq!(open(Arch::MIPS, Mode::Mips32R6).raw_mode(), 64);
}

#[test]
fn open_reports_the_error() {
    let cs = Capstone::new_raw(Arch::X86, Mode::Mips3, NO_EXTRA_MODE, None, |_, _| (5, HANDLE));
    assert_eq!(cs.err(), Some(Error::Capstone(CapstoneError::InvalidMode)));
}

#[test]
fn builder_opens_x86() {
    for (mode, bits) in [(ArchMode::Mode16, 2), (ArchMode::Mode32, 4), (ArchMode::Mode64, 8)] {
        let mut seen = None;
        let cs = Capstone::new()
            .x86()
            .mode(mode)
            .build(|a, m| {
                seen = Some((a, m));
                (0, HANDLE)
            })
            .unwrap();
        assert_eq!(seen, Some((Arch::X86, bits)));
        assert_eq!(cs.raw_mode(), bits);
    }
}

#[test]
fn no_extra_mode_yields_none() {
    let mut modes = NO_EXTRA_MODE;
    assert_eq!(modes.next(), None);
    assert_eq!(modes.next(), None);
}

#[test]
fn set_mode_replaces_the_mode() {
    let mut cs = open(Arch::X86, Mode::Mode32);
    let mut seen = None;
    let r = cs.set_mode(Mode::Mode16, |h, o, v| {
        seen = Some((h, o, v));
        0
    });
    assert_eq!(r, Ok(()));
    assert_eq!(seen, Some((HANDLE, OptType::Mode, 2)));
    assert_eq!(cs.raw_mode(), 2);
}

#[test]
fn refused_changes_change_nothing() {
    let mut cs = open(Arch::MIPS, Mode::Mips32R6);
    cs.set_extra_mode([ExtraMode::Micro].iter().map(|x| *x), accept).unwrap();
    let before = format!("{:?}", cs);
    let invalid = Err(Error::Capstone(CapstoneError::InvalidOption));

    assert_eq!(cs.set_mode(Mode::Mips3, refuse), invalid);
    assert_eq!(cs.set_endian(Endian::Big, refuse), invalid);
    assert_eq!(cs.set_extra_mode(NO_EXTRA_MODE, refuse), invalid);
    assert_eq!(cs.set_syntax(Syntax::Att, refuse), invalid);
    assert_eq!(cs.set_detail(true, refuse), invalid);

    assert_eq!(format!("{:?}", cs), before);
}

#[test]
fn refused_changes_still_ask_the_engine() {
    let mut cs = open(Arch::X86, Mode::Mode32);
    let mut asked = Vec::new();
    let _ = cs.set_endian(Endian::Big, |h, o, v| {
        asked.push((h, o, v));
        6
    });
    let _ = cs.set_syntax(Syntax::Masm, |h, o, v| {
        asked.push((h, o, v));
        14
    });
    let _ = cs.set_detail(true, |h, o, v| {
        asked.push((h, o, v));
        6
    });
    let _ = cs.set_detail(false, |h, o, v| {
        asked.push((h, o, v));
        6
    });
    assert_eq!(
        asked,
        vec![
            (HANDLE, OptType::Mode, (-2147483648i32 | 4) as usize),
            (HANDLE, OptType::Syntax, 4),
            (HANDLE, OptType::Detail, 3),
            (HANDLE, OptType::Detail, 0),
        ]
    );
}

#[test]
fn details_can_be_switched() {
    let mut cs = open(Arch::X86, Mode::Mode32);
    assert!(!cs.detail_enabled());
    cs.set_detail(true, accept).unwrap();
    assert!(cs.detail_enabled());
    cs.set_detail(false, accept).unwrap();
    assert!(!cs.detail_enabled());
}

#[test]
fn the_session_follows_the_engine() {
    let mut cs = open(Arch::MIPS, Mode::Mips3);
    let mut engine_mode = cs.raw_mode() as usize;
    let codes = [0u32, 6, 0, 0, 6, 0];
    for (i, code) in codes.iter().enumerate() {
        let mut handed = 0;
        let option = |_: usize, _: OptType, v: usize| {
            handed = v;
            *code
        };
        let r = match i {
            0 => cs.set_mode(Mode::Mips32R6, option),
            1 => cs.set_endian(Endian::Big, option),
            2 => cs.set_extra_mode([ExtraMode::Micro].iter().map(|x| *x), option),
            3 => cs.set_endian(Endian::Big, option),
            4 => cs.set_mode(Mode::Mips2, option),
            _ => cs.set_extra_mode(NO_EXTRA_MODE, option),
        };
        assert_eq!(r.is_ok(), *code == 0);
        if *code == 0 {
            engine_mode = handed;
        }
        assert_eq!(cs.raw_mode() as usize, engine_mode);
    }
    assert_eq!(cs.raw_mode(), -2147483648 | 64 | 4);
}

#[test]
fn the_last_change_wins_and_undoes() {
    let mut cs = open(Arch::ARM, Mode::Arm);
    let start = format!("{:?}", cs);
    cs.set_extra_mode([ExtraMode::MClass].iter().map(|x| *x), accept).unwrap();
    assert_eq!(cs.raw_mode(), 32);
    cs.set_extra_mode([ExtraMode::V8].iter().map(|x| *x), accept).unwrap();
    assert_eq!(cs.raw_mode(), 64);
    cs.set_extra_mode(NO_EXTRA_MODE, accept).unwrap();
    assert_eq!(format!("{:?}", cs), start);
}

#[test]
fn changes_of_different_settings_commute() {
    let mut a = open(Arch::ARM, Mode::Arm);
    a.set_mode(Mode::Thumb, accept).unwrap();
    a.set_endian(Endian::Big, accept).unwrap();
    a.set_extra_mode([ExtraMode::V8].iter().map(|x| *x), accept).unwrap();
    let mut b = open(Arch::ARM, Mode::Arm);
    b.set_extra_mode([ExtraMode::V8].iter().map(|x| *x), accept).unwrap();
    b.set_endian(Endian::Big, accept).unwrap();
    b.set_mode(Mode::Thumb, accept).unwrap();
    assert_eq!(format!("{:?}", a), format!("{:?}", b));
}

#[test]
fn mips32r6_and_extra_modes_do_not_commute() {
    let mut a = open(Arch::MIPS, Mode::Mips3);
    a.set_mode(Mode::Mips32R6, accept).unwrap();
    a.set_extra_mode([ExtraMode::Micro].iter().map(|x| *x), accept).unwrap();
    assert_eq!(a.raw_mode(), 64 | 16 | 4);
    let mut b = open(Arch::MIPS, Mode::Mips3);
    b.set_extra_mode([ExtraMode::Micro].iter().map(|x| *x), accept).unwrap();
    b.set_mode(Mode::Mips32R6, accept).unwrap();
    assert_eq!(b.raw_mode(), 64 | 16);
}

#[test]
fn extra_modes_are_a_set() {
    let mut a = open(Arch::ARM, Mode::Arm);
    let mut b = open(Arch::ARM, Mode::Arm);
    let once = [ExtraMode::V8, ExtraMode::MClass];
    let more = [ExtraMode::MClass, ExtraMode::V8, ExtraMode::MClass];
    a.set_extra_mode(once.iter().map(|x| *x), accept).unwrap();
    b.set_extra_mode(more.iter().map(|x| *x), accept).unwrap();
    assert_eq!(a.raw_mode(), 32 | 64);
    assert_eq!(a.raw_mode(), b.raw_mode());
}

#[test]
fn raw_mode_is_exactly_its_parts() {
    let mut cs = open(Arch::MIPS, Mode::Mips3);
    cs.set_endian(Endian::Big, accept).unwrap();
    cs.set_extra_mode([ExtraMode::Micro].iter().map(|x| *x), accept).unwrap();
    let raw = cs.raw_mode();
    assert_eq!(raw & 32, 32);
    assert_eq!(raw & 16, 16);
    assert_eq!(raw & i32::MIN, i32::MIN);
    assert_eq!(raw & !32 & !16 & !i32::MIN, 0);
}

#[test]
fn mode_values_come_back_from_the_engine_unharmed() {
    let mut cs = open(Arch::MIPS, Mode::Mips3);
    let mut handed = 0;
    cs.set_endian(Endian::Big, |_, _, v| {
        handed = v;
        0
    })
    .unwrap();
    assert_eq!(handed as i32, cs.raw_mode());
}

#[test]
fn extra_modes_combine() {
    let bits = |modes: &[ExtraMode]| {
        let mut cs = open(Arch::ARM, Mode::Arm);
        cs.set_extra_mode(modes.iter().map(|x| *x), accept).unwrap();
        cs.raw_mode()
    };
    let a = [ExtraMode::Micro];
    let b = [ExtraMode::V8, ExtraMode::Micro];
    assert_eq!(bits(&[ExtraMode::Micro, ExtraMode::V8, ExtraMode::Micro]), bits(&a) | bits(&b));
    assert_eq!(bits(&[ExtraMode::V8, ExtraMode::Micro, ExtraMode::Micro]), bits(&a) | bits(&b));
    assert_eq!(bits(&a) | bits(&b), 16 | 64);
    let chained = Capstone::extra_mode_value(a.iter().chain(b.iter()).map(|x| *x));
    assert_eq!(chained, 16 | 64);
    assert_eq!(Capstone::extra_mode_value(NO_EXTRA_MODE), 0);
}

#[test]
fn close_hands_over_the_handle_once() {
    let mut cs = open(Arch::X86, Mode::Mode32);
    cs.set_mode(Mode::Mode64, accept).unwrap();
    cs.set_syntax(Syntax::Att, refuse).unwrap_err();
    let mut seen = Vec::new();
    cs.close(|h| {
        seen.push(h);
        4
    });
    assert_eq!(seen, vec![HANDLE]);
}

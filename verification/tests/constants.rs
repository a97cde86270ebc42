use capstone::constants;
use capstone::error;
use capstone::{Arch, Endian, ExtraMode, Mode, OptValue, Syntax};
use capstone_sys::{cs_arch, cs_err, cs_opt_value};

#[test]
fn architectures_have_the_engine_numbers() {
    let pairs = [
        (Arch::ARM, cs_arch::CS_ARCH_ARM),
        (Arch::ARM64, cs_arch::CS_ARCH_ARM64),
        (Arch::MIPS, cs_arch::CS_ARCH_MIPS),
        (Arch::X86, cs_arch::CS_ARCH_X86),
        (Arch::PPC, cs_arch::CS_ARCH_PPC),
        (Arch::SPARC, cs_arch::CS_ARCH_SPARC),
        (Arch::SYSZ, cs_arch::CS_ARCH_SYSZ),
        (Arch::XCORE, cs_arch::CS_ARCH_XCORE),
        (Arch::M68K, cs_arch::CS_ARCH_M68K),
        (Arch::TMS320C64X, cs_arch::CS_ARCH_TMS320C64X),
        (Arch::M680X, cs_arch::CS_ARCH_M680X),
        (Arch::EVM, cs_arch::CS_ARCH_EVM),
    ];
    assert_eq!(pairs.len(), cs_arch::CS_ARCH_MAX as usize);
    for (ours, engine) in pairs {
        assert_eq!(ours.number(), engine as i32);
        assert_eq!(ours as i32, engine as i32);
    }
}

#[test]
fn modes_have_the_engine_bits() {
    let pairs = [
        (Mode::Arm, capstone_sys::CS_MODE_ARM),
        (Mode::Mode16, capstone_sys::CS_MODE_16),
        (Mode::Mode32, capstone_sys::CS_MODE_32),
        (Mode::Mode64, capstone_sys::CS_MODE_64),
        (Mode::Thumb, capstone_sys::CS_MODE_THUMB),
        (Mode::Mips2, capstone_sys::CS_MODE_MIPS2),
        (Mode::Mips3, capstone_sys::CS_MODE_MIPS3),
        (Mode::Mips32R6, capstone_sys::CS_MODE_MIPS32R6),
        (Mode::Mips32, capstone_sys::CS_MODE_MIPS32),
        (Mode::Mips64, capstone_sys::CS_MODE_MIPS64),
        (Mode::V9, capstone_sys::CS_MODE_V9),
        (Mode::Qpx, capstone_sys::CS_MODE_QPX),
        (Mode::M68k000, capstone_sys::CS_MODE_M68K_000),
        (Mode::M68k010, capstone_sys::CS_MODE_M68K_010),
        (Mode::M68k020, capstone_sys::CS_MODE_M68K_020),
        (Mode::M68k030, capstone_sys::CS_MODE_M68K_030),
        (Mode::M68k040, capstone_sys::CS_MODE_M68K_040),
        (Mode::M68k060, capstone_sys::CS_MODE_M68K_060),
        (Mode::M680x6301, capstone_sys::CS_MODE_M680X_6301),
        (Mode::M680x6309, capstone_sys::CS_MODE_M680X_6309),
        (Mode::M680x6800, capstone_sys::CS_MODE_M680X_6800),
        (Mode::M680x6801, capstone_sys::CS_MODE_M680X_6801),
        (Mode::M680x6805, capstone_sys::CS_MODE_M680X_6805),
        (Mode::M680x6808, capstone_sys::CS_MODE_M680X_6808),
        (Mode::M680x6809, capstone_sys::CS_MODE_M680X_6809),
        (Mode::M680x6811, capstone_sys::CS_MODE_M680X_6811),
        (Mode::M680xCpu12, capstone_sys::CS_MODE_M680X_CPU12),
        (Mode::M680xHcs08, capstone_sys::CS_MODE_M680X_HCS08),
        (Mode::Default, capstone_sys::CS_MODE_LITTLE_ENDIAN),
    ];
    for (ours, engine) in pairs {
        assert_eq!(ours.bits(), engine.0);
    }
    assert_eq!(constants::CS_MODE_32, capstone_sys::CS_MODE_32.0);
}

#[test]
fn extra_modes_and_byte_orders_have_the_engine_bits() {
    assert_eq!(ExtraMode::MClass.bits(), capstone_sys::CS_MODE_MCLASS.0);
    assert_eq!(ExtraMode::V8.bits(), capstone_sys::CS_MODE_V8.0);
    assert_eq!(ExtraMode::Micro.bits(), capstone_sys::CS_MODE_MICRO.0);
    assert_eq!(Endian::Little.bits(), capstone_sys::CS_MODE_LITTLE_ENDIAN.0);
    assert_eq!(Endian::Big.bits(), capstone_sys::CS_MODE_BIG_ENDIAN.0);
}

#[test]
fn option_values_are_those_of_the_engine() {
    assert_eq!(Syntax::Intel.code(), cs_opt_value::CS_OPT_SYNTAX_INTEL);
    assert_eq!(Syntax::Att.code(), cs_opt_value::CS_OPT_SYNTAX_ATT);
    assert_eq!(Syntax::NoRegName.code(), cs_opt_value::CS_OPT_SYNTAX_NOREGNAME);
    assert_eq!(Syntax::Masm.code(), cs_opt_value::CS_OPT_SYNTAX_MASM);
    assert_eq!(constants::CS_OPT_SYNTAX_DEFAULT, cs_opt_value::CS_OPT_SYNTAX_DEFAULT);
    assert_eq!(OptValue::from(true), OptValue(cs_opt_value::CS_OPT_ON));
    assert_eq!(OptValue::from(false), OptValue(cs_opt_value::CS_OPT_OFF));
    assert_eq!(constants::CS_SUPPORT_DIET, capstone_sys::CS_SUPPORT_DIET);
}

#[test]
fn error_codes_are_those_of_the_engine() {
    let pairs = [
        (error::CS_ERR_OK, cs_err::CS_ERR_OK),
        (error::CS_ERR_MEM, cs_err::CS_ERR_MEM),
        (error::CS_ERR_ARCH, cs_err::CS_ERR_ARCH),
        (error::CS_ERR_HANDLE, cs_err::CS_ERR_HANDLE),
        (error::CS_ERR_CSH, cs_err::CS_ERR_CSH),
        (error::CS_ERR_MODE, cs_err::CS_ERR_MODE),
        (error::CS_ERR_OPTION, cs_err::CS_ERR_OPTION),
        (error::CS_ERR_DETAIL, cs_err::CS_ERR_DETAIL),
        (error::CS_ERR_MEMSETUP, cs_err::CS_ERR_MEMSETUP),
        (error::CS_ERR_VERSION, cs_err::CS_ERR_VERSION),
        (error::CS_ERR_DIET, cs_err::CS_ERR_DIET),
        (error::CS_ERR_SKIPDATA, cs_err::CS_ERR_SKIPDATA),
        (error::CS_ERR_X86_ATT, cs_err::CS_ERR_X86_ATT),
        (error::CS_ERR_X86_INTEL, cs_err::CS_ERR_X86_INTEL),
        (error::CS_ERR_X86_MASM, cs_err::CS_ERR_X86_MASM),
    ];
    for (ours, engine) in pairs {
        assert_eq!(ours, engine);
    }
}

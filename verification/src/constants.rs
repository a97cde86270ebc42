//! The engine's numbers, and the enumerations that stand for them.
//!
//! The engine takes its settings as integers. Modes are bit fields that are combined with `|`;
//! options and their values are plain codes. Callers of this crate write the enumerations;
//! [`Mode::bits`] and its siblings give the integer that the engine is handed.

use vstd::prelude::*;

verus! {

/// Little-endian, the engine's default.
pub const CS_MODE_LITTLE_ENDIAN: i32 = 0;

/// Big-endian: the sign bit of the bit field.
pub const CS_MODE_BIG_ENDIAN: i32 = -2147483648;

/// 32-bit ARM.
pub const CS_MODE_ARM: i32 = 0;

/// 16-bit mode (x86).
pub const CS_MODE_16: i32 = 2;

/// 32-bit mode (x86), and the base width of MIPS32.
pub const CS_MODE_32: i32 = 4;

/// 64-bit mode (x86, PowerPC).
pub const CS_MODE_64: i32 = 8;

/// Thumb and Thumb-2 (ARM).
pub const CS_MODE_THUMB: i32 = 16;

/// The Cortex-M series (ARM).
pub const CS_MODE_MCLASS: i32 = 32;

/// ARMv8 A32 encodings (ARM).
pub const CS_MODE_V8: i32 = 64;

/// MicroMips (MIPS).
pub const CS_MODE_MICRO: i32 = 16;

/// The Mips II instruction set.
pub const CS_MODE_MIPS2: i32 = 128;

/// The Mips III instruction set.
pub const CS_MODE_MIPS3: i32 = 32;

/// The Mips32r6 instruction set.
pub const CS_MODE_MIPS32R6: i32 = 64;

/// The Mips32 instruction set.
pub const CS_MODE_MIPS32: i32 = 4;

/// The Mips64 instruction set.
pub const CS_MODE_MIPS64: i32 = 8;

/// SparcV9 (SPARC).
pub const CS_MODE_V9: i32 = 16;

/// Quad Processing eXtensions (PowerPC).
pub const CS_MODE_QPX: i32 = 16;

/// Motorola 68000.
pub const CS_MODE_M68K_000: i32 = 2;

/// Motorola 68010.
pub const CS_MODE_M68K_010: i32 = 4;

/// Motorola 68020.
pub const CS_MODE_M68K_020: i32 = 8;

/// Motorola 68030.
pub const CS_MODE_M68K_030: i32 = 16;

/// Motorola 68040.
pub const CS_MODE_M68K_040: i32 = 32;

/// Motorola 68060.
pub const CS_MODE_M68K_060: i32 = 64;

/// Hitachi 6301 and 6303.
pub const CS_MODE_M680X_6301: i32 = 2;

/// Hitachi 6309.
pub const CS_MODE_M680X_6309: i32 = 4;

/// Motorola 6800 and 6802.
pub const CS_MODE_M680X_6800: i32 = 8;

/// Motorola 6801 and 6803.
pub const CS_MODE_M680X_6801: i32 = 16;

/// Motorola 6805.
pub const CS_MODE_M680X_6805: i32 = 32;

/// Motorola 68HC08.
pub const CS_MODE_M680X_6808: i32 = 64;

/// Motorola 6809.
pub const CS_MODE_M680X_6809: i32 = 128;

/// Motorola 68HC11.
pub const CS_MODE_M680X_6811: i32 = 256;

/// Motorola CPU12, as in the 68HC12.
pub const CS_MODE_M680X_CPU12: i32 = 512;

/// Freescale HCS08.
pub const CS_MODE_M680X_HCS08: i32 = 1024;

/// Switches an option off.
pub const CS_OPT_OFF: u32 = 0;

/// Switches an option on.
pub const CS_OPT_ON: u32 = 3;

/// The assembly syntax that an engine starts with.
pub const CS_OPT_SYNTAX_DEFAULT: u32 = 0;

/// Intel syntax (x86).
pub const CS_OPT_SYNTAX_INTEL: u32 = 1;

/// AT&T syntax (x86).
pub const CS_OPT_SYNTAX_ATT: u32 = 2;

/// Registers printed by their number alone.
pub const CS_OPT_SYNTAX_NOREGNAME: u32 = 3;

/// Microsoft MASM syntax (x86).
pub const CS_OPT_SYNTAX_MASM: u32 = 4;

/// The support query that asks whether the engine was built in diet mode.
pub const CS_SUPPORT_DIET: i32 = 65536;

/// An architecture that the engine can disassemble.
#[derive(Clone, Copy, Debug, PartialEq, Eq, Hash, Structural)]
pub enum Arch {
    /// ARM, including Thumb and Thumb-2.
    ARM,
    /// ARM-64, also called AArch64.
    ARM64,
    /// MIPS.
    MIPS,
    /// x86, including x86-64.
    X86,
    /// PowerPC.
    PPC,
    /// SPARC.
    SPARC,
    /// SystemZ.
    SYSZ,
    /// XCore.
    XCORE,
    /// Motorola 68K.
    M68K,
    /// TMS320C64x.
    TMS320C64X,
    /// Motorola 680X.
    M680X,
    /// Ethereum.
    EVM,
}

impl Arch {
    /// The engine's number for the architecture.
    pub open spec fn spec_number(self) -> i32 {
        match self {
            Arch::ARM => 0,
            Arch::ARM64 => 1,
            Arch::MIPS => 2,
            Arch::X86 => 3,
            Arch::PPC => 4,
            Arch::SPARC => 5,
            Arch::SYSZ => 6,
            Arch::XCORE => 7,
            Arch::M68K => 8,
            Arch::TMS320C64X => 9,
            Arch::M680X => 10,
            Arch::EVM => 11,
        }
    }

    /// The engine's number for the architecture.
    #[verifier::when_used_as_spec(spec_number)]
    pub fn number(self) -> (r: i32)
        ensures
            r == self.spec_number(),
    {
        match self {
            Arch::ARM => 0,
            Arch::ARM64 => 1,
            Arch::MIPS => 2,
            Arch::X86 => 3,
            Arch::PPC => 4,
            Arch::SPARC => 5,
            Arch::SYSZ => 6,
            Arch::XCORE => 7,
            Arch::M68K => 8,
            Arch::TMS320C64X => 9,
            Arch::M680X => 10,
            Arch::EVM => 11,
        }
    }
}

/// A disassembly mode. Which modes make sense depends on the architecture.
#[derive(Clone, Copy, Debug, PartialEq, Eq, Hash, Structural)]
pub enum Mode {
    /// 32-bit ARM.
    Arm,
    /// 16-bit x86.
    Mode16,
    /// 32-bit x86.
    Mode32,
    /// 64-bit x86 or PowerPC.
    Mode64,
    /// Thumb and Thumb-2.
    Thumb,
    /// Mips II.
    Mips2,
    /// Mips III.
    Mips3,
    /// Mips32r6.
    Mips32R6,
    /// Mips32.
    Mips32,
    /// Mips64.
    Mips64,
    /// SparcV9.
    V9,
    /// PowerPC with Quad Processing eXtensions.
    Qpx,
    /// Motorola 68000.
    M68k000,
    /// Motorola 68010.
    M68k010,
    /// Motorola 68020.
    M68k020,
    /// Motorola 68030.
    M68k030,
    /// Motorola 68040.
    M68k040,
    /// Motorola 68060.
    M68k060,
    /// Hitachi 6301 and 6303.
    M680x6301,
    /// Hitachi 6309.
    M680x6309,
    /// Motorola 6800 and 6802.
    M680x6800,
    /// Motorola 6801 and 6803.
    M680x6801,
    /// Motorola 6805.
    M680x6805,
    /// Motorola 68HC08.
    M680x6808,
    /// Motorola 6809.
    M680x6809,
    /// Motorola 68HC11.
    M680x6811,
    /// Motorola CPU12.
    M680xCpu12,
    /// Freescale HCS08.
    M680xHcs08,
    /// The engine's default mode.
    Default,
}

impl Mode {
    /// The bits of the mode.
    pub open spec fn spec_bits(self) -> i32 {
        match self {
            Mode::Arm => CS_MODE_ARM,
            Mode::Mode16 => CS_MODE_16,
            Mode::Mode32 => CS_MODE_32,
            Mode::Mode64 => CS_MODE_64,
            Mode::Thumb => CS_MODE_THUMB,
            Mode::Mips2 => CS_MODE_MIPS2,
            Mode::Mips3 => CS_MODE_MIPS3,
            Mode::Mips32R6 => CS_MODE_MIPS32R6,
            Mode::Mips32 => CS_MODE_MIPS32,
            Mode::Mips64 => CS_MODE_MIPS64,
            Mode::V9 => CS_MODE_V9,
            Mode::Qpx => CS_MODE_QPX,
            Mode::M68k000 => CS_MODE_M68K_000,
            Mode::M68k010 => CS_MODE_M68K_010,
            Mode::M68k020 => CS_MODE_M68K_020,
            Mode::M68k030 => CS_MODE_M68K_030,
            Mode::M68k040 => CS_MODE_M68K_040,
            Mode::M68k060 => CS_MODE_M68K_060,
            Mode::M680x6301 => CS_MODE_M680X_6301,
            Mode::M680x6309 => CS_MODE_M680X_6309,
            Mode::M680x6800 => CS_MODE_M680X_6800,
            Mode::M680x6801 => CS_MODE_M680X_6801,
            Mode::M680x6805 => CS_MODE_M680X_6805,
            Mode::M680x6808 => CS_MODE_M680X_6808,
            Mode::M680x6809 => CS_MODE_M680X_6809,
            Mode::M680x6811 => CS_MODE_M680X_6811,
            Mode::M680xCpu12 => CS_MODE_M680X_CPU12,
            Mode::M680xHcs08 => CS_MODE_M680X_HCS08,
            Mode::Default => CS_MODE_LITTLE_ENDIAN,
        }
    }

    /// The bits of the mode.
    #[verifier::when_used_as_spec(spec_bits)]
    pub fn bits(self) -> (r: i32)
        ensures
            r == self.spec_bits(),
    {
        match self {
            Mode::Arm => CS_MODE_ARM,
            Mode::Mode16 => CS_MODE_16,
            Mode::Mode32 => CS_MODE_32,
            Mode::Mode64 => CS_MODE_64,
            Mode::Thumb => CS_MODE_THUMB,
            Mode::Mips2 => CS_MODE_MIPS2,
            Mode::Mips3 => CS_MODE_MIPS3,
            Mode::Mips32R6 => CS_MODE_MIPS32R6,
            Mode::Mips32 => CS_MODE_MIPS32,
            Mode::Mips64 => CS_MODE_MIPS64,
            Mode::V9 => CS_MODE_V9,
            Mode::Qpx => CS_MODE_QPX,
            Mode::M68k000 => CS_MODE_M68K_000,
            Mode::M68k010 => CS_MODE_M68K_010,
            Mode::M68k020 => CS_MODE_M68K_020,
            Mode::M68k030 => CS_MODE_M68K_030,
            Mode::M68k040 => CS_MODE_M68K_040,
            Mode::M68k060 => CS_MODE_M68K_060,
            Mode::M680x6301 => CS_MODE_M680X_6301,
            Mode::M680x6309 => CS_MODE_M680X_6309,
            Mode::M680x6800 => CS_MODE_M680X_6800,
            Mode::M680x6801 => CS_MODE_M680X_6801,
            Mode::M680x6805 => CS_MODE_M680X_6805,
            Mode::M680x6808 => CS_MODE_M680X_6808,
            Mode::M680x6809 => CS_MODE_M680X_6809,
            Mode::M680x6811 => CS_MODE_M680X_6811,
            Mode::M680xCpu12 => CS_MODE_M680X_CPU12,
            Mode::M680xHcs08 => CS_MODE_M680X_HCS08,
            Mode::Default => CS_MODE_LITTLE_ENDIAN,
        }
    }
}

/// A mode that is set in addition to the disassembly mode.
#[derive(Clone, Copy, Debug, PartialEq, Eq, Hash, Structural)]
pub enum ExtraMode {
    /// The Cortex-M series (ARM).
    MClass,
    /// ARMv8 A32 encodings (ARM).
    V8,
    /// MicroMips (MIPS).
    Micro,
}

impl ExtraMode {
    /// The bits of the extra mode.
    pub open spec fn spec_bits(self) -> i32 {
        match self {
            ExtraMode::MClass => CS_MODE_MCLASS,
            ExtraMode::V8 => CS_MODE_V8,
            ExtraMode::Micro => CS_MODE_MICRO,
        }
    }

    /// The bits of the extra mode.
    #[verifier::when_used_as_spec(spec_bits)]
    pub fn bits(self) -> (r: i32)
        ensures
            r == self.spec_bits(),
    {
        match self {
            ExtraMode::MClass => CS_MODE_MCLASS,
            ExtraMode::V8 => CS_MODE_V8,
            ExtraMode::Micro => CS_MODE_MICRO,
        }
    }
}

/// A byte order.
#[derive(Clone, Copy, Debug, PartialEq, Eq, Hash, Structural)]
pub enum Endian {
    /// Little-endian.
    Little,
    /// Big-endian.
    Big,
}

impl Endian {
    /// The bits of the byte order.
    pub open spec fn spec_bits(self) -> i32 {
        match self {
            Endian::Little => CS_MODE_LITTLE_ENDIAN,
            Endian::Big => CS_MODE_BIG_ENDIAN,
        }
    }

    /// The bits of the byte order.
    #[verifier::when_used_as_spec(spec_bits)]
    pub fn bits(self) -> (r: i32)
        ensures
            r == self.spec_bits(),
    {
        match self {
            Endian::Little => CS_MODE_LITTLE_ENDIAN,
            Endian::Big => CS_MODE_BIG_ENDIAN,
        }
    }
}

/// An assembly syntax.
#[derive(Clone, Copy, Debug, PartialEq, Eq, Hash, Structural)]
pub enum Syntax {
    /// Intel (x86).
    Intel,
    /// AT&T (x86).
    Att,
    /// Registers by number alone.
    NoRegName,
    /// Microsoft MASM (x86).
    Masm,
}

impl Syntax {
    /// The option value of the syntax.
    pub open spec fn spec_code(self) -> u32 {
        match self {
            Syntax::Intel => CS_OPT_SYNTAX_INTEL,
            Syntax::Att => CS_OPT_SYNTAX_ATT,
            Syntax::NoRegName => CS_OPT_SYNTAX_NOREGNAME,
            Syntax::Masm => CS_OPT_SYNTAX_MASM,
        }
    }

    /// The option value of the syntax.
    #[verifier::when_used_as_spec(spec_code)]
    pub fn code(self) -> (r: u32)
        ensures
            r == self.spec_code(),
    {
        match self {
            Syntax::Intel => CS_OPT_SYNTAX_INTEL,
            Syntax::Att => CS_OPT_SYNTAX_ATT,
            Syntax::NoRegName => CS_OPT_SYNTAX_NOREGNAME,
            Syntax::Masm => CS_OPT_SYNTAX_MASM,
        }
    }
}

/// The option that a call of the engine's option function sets.
#[derive(Clone, Copy, Debug, PartialEq, Eq, Hash, Structural)]
pub enum OptType {
    /// The assembly syntax.
    Syntax,
    /// Whether instructions are broken down into details.
    Detail,
    /// The combined mode bits.
    Mode,
}

/// A value for an option that is either on or off.
#[derive(Clone, Copy, Debug, PartialEq, Eq, Hash, Structural)]
pub struct OptValue(pub u32);

impl From<bool> for OptValue {
    fn from(on: bool) -> (r: OptValue) {
        if on {
            OptValue(CS_OPT_ON)
        } else {
            OptValue(CS_OPT_OFF)
        }
    }
}

impl vstd::std_specs::convert::FromSpecImpl<bool> for OptValue {
    open spec fn obeys_from_spec() -> bool {
        true
    }

    open spec fn from_spec(on: bool) -> OptValue {
        OptValue(
            if on {
                CS_OPT_ON
            } else {
                CS_OPT_OFF
            },
        )
    }
}

} // verus!

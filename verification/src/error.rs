//! Errors, and the engine's error codes that they stand for.

use vstd::prelude::*;

verus! {

/// No error.
pub const CS_ERR_OK: u32 = 0;

/// Out of memory.
pub const CS_ERR_MEM: u32 = 1;

/// Unsupported architecture.
pub const CS_ERR_ARCH: u32 = 2;

/// Invalid handle.
pub const CS_ERR_HANDLE: u32 = 3;

/// Invalid handle argument.
pub const CS_ERR_CSH: u32 = 4;

/// Invalid or unsupported mode.
pub const CS_ERR_MODE: u32 = 5;

/// Invalid or unsupported option.
pub const CS_ERR_OPTION: u32 = 6;

/// The detail option is off.
pub const CS_ERR_DETAIL: u32 = 7;

/// Memory management is not set up.
pub const CS_ERR_MEMSETUP: u32 = 8;

/// Unsupported version.
pub const CS_ERR_VERSION: u32 = 9;

/// The data is not kept by an engine built in diet mode.
pub const CS_ERR_DIET: u32 = 10;

/// The data does not exist for skipped bytes.
pub const CS_ERR_SKIPDATA: u32 = 11;

/// AT&T syntax was left out when the engine was built.
pub const CS_ERR_X86_ATT: u32 = 12;

/// Intel syntax was left out when the engine was built.
pub const CS_ERR_X86_INTEL: u32 = 13;

/// MASM syntax was left out when the engine was built.
pub const CS_ERR_X86_MASM: u32 = 14;

/// An error that the engine reports.
#[derive(Clone, Copy, Debug, PartialEq, Eq, Hash, Structural)]
pub enum CapstoneError {
    /// Out of memory.
    OutOfMemory,
    /// Unsupported architecture.
    UnsupportedArch,
    /// Invalid handle.
    InvalidHandle,
    /// Invalid handle argument.
    InvalidCsh,
    /// Invalid or unsupported mode.
    InvalidMode,
    /// Invalid or unsupported option.
    InvalidOption,
    /// Information is unavailable because the detail option is off.
    DetailOff,
    /// Dynamic memory management is not set up.
    MemSetup,
    /// Unsupported version of the bindings.
    UnsupportedVersion,
    /// Access to data that an engine built in diet mode does not keep.
    IrrelevantDataInDiet,
    /// Access to data that bytes skipped as data do not have.
    IrrelevantDataInSkipData,
    /// AT&T syntax is unsupported.
    UnsupportedX86Att,
    /// Intel syntax is unsupported.
    UnsupportedX86Intel,
    /// MASM syntax is unsupported.
    UnsupportedX86Masm,
    /// An error code that this crate does not know.
    UnknownCapstoneError,
}

/// The error that a code other than [`CS_ERR_OK`] stands for.
pub open spec fn spec_capstone_error(code: u32) -> CapstoneError {
    if code == CS_ERR_MEM {
        CapstoneError::OutOfMemory
    } else if code == CS_ERR_ARCH {
        CapstoneError::UnsupportedArch
    } else if code == CS_ERR_HANDLE {
        CapstoneError::InvalidHandle
    } else if code == CS_ERR_CSH {
        CapstoneError::InvalidCsh
    } else if code == CS_ERR_MODE {
        CapstoneError::InvalidMode
    } else if code == CS_ERR_OPTION {
        CapstoneError::InvalidOption
    } else if code == CS_ERR_DETAIL {
        CapstoneError::DetailOff
    } else if code == CS_ERR_MEMSETUP {
        CapstoneError::MemSetup
    } else if code == CS_ERR_VERSION {
        CapstoneError::UnsupportedVersion
    } else if code == CS_ERR_DIET {
        CapstoneError::IrrelevantDataInDiet
    } else if code == CS_ERR_SKIPDATA {
        CapstoneError::IrrelevantDataInSkipData
    } else if code == CS_ERR_X86_ATT {
        CapstoneError::UnsupportedX86Att
    } else if code == CS_ERR_X86_INTEL {
        CapstoneError::UnsupportedX86Intel
    } else if code == CS_ERR_X86_MASM {
        CapstoneError::UnsupportedX86Masm
    } else {
        CapstoneError::UnknownCapstoneError
    }
}

impl CapstoneError {
    /// The error that `code` stands for. [`CS_ERR_OK`] stands for none.
    fn from_code(code: u32) -> (e: CapstoneError)
        requires
            code != CS_ERR_OK,
        ensures
            e == spec_capstone_error(code),
    {
        match code {
            CS_ERR_MEM => CapstoneError::OutOfMemory,
            CS_ERR_ARCH => CapstoneError::UnsupportedArch,
            CS_ERR_HANDLE => CapstoneError::InvalidHandle,
            CS_ERR_CSH => CapstoneError::InvalidCsh,
            CS_ERR_MODE => CapstoneError::InvalidMode,
            CS_ERR_OPTION => CapstoneError::InvalidOption,
            CS_ERR_DETAIL => CapstoneError::DetailOff,
            CS_ERR_MEMSETUP => CapstoneError::MemSetup,
            CS_ERR_VERSION => CapstoneError::UnsupportedVersion,
            CS_ERR_DIET => CapstoneError::IrrelevantDataInDiet,
            CS_ERR_SKIPDATA => CapstoneError::IrrelevantDataInSkipData,
            CS_ERR_X86_ATT => CapstoneError::UnsupportedX86Att,
            CS_ERR_X86_INTEL => CapstoneError::UnsupportedX86Intel,
            CS_ERR_X86_MASM => CapstoneError::UnsupportedX86Masm,
            _ => CapstoneError::UnknownCapstoneError,
        }
    }
}

/// What an operation of this crate can fail with.
#[derive(Clone, Copy, Debug, PartialEq, Eq, Hash)]
pub enum Error {
    /// An error that the engine reports, or would report.
    Capstone(CapstoneError),
    /// A request that is refused before the engine is asked.
    CustomError(&'static str),
}

/// The result of an operation of this crate.
pub type CsResult<T> = Result<T, Error>;

/// What an engine call that answers with `code` comes to.
pub open spec fn spec_cs_result(code: u32) -> CsResult<()> {
    if code == CS_ERR_OK {
        Ok(())
    } else {
        Err(Error::Capstone(spec_capstone_error(code)))
    }
}

/// Turns the code that an engine call answers with into a result: `Ok` for [`CS_ERR_OK`], and
/// the error that the code stands for otherwise.
#[verifier::when_used_as_spec(spec_cs_result)]
pub fn cs_result(code: u32) -> (r: CsResult<()>)
    ensures
        r == spec_cs_result(code),
{
    if code == CS_ERR_OK {
        Ok(())
    } else {
        Err(Error::Capstone(CapstoneError::from_code(code)))
    }
}

} // verus!

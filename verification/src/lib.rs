//! A disassembler session.
//!
//! The disassembly itself is the work of the Capstone engine. This crate is what stands between
//! the engine and its callers: it keeps track of what an open engine is set to, decides what the
//! engine is asked, and turns its answers into results.
//!
//! The engine is a C library. This crate does not link it: an operation that needs the engine
//! takes the engine's function as its last arguments, each under the engine's name for it
//! (`cs_open`, `cs_option`, ...). Its contract says what that function is handed and, for every
//! answer, what the operation returns and what becomes of the session.
//!
//! ```ignore
//! let mut cs = Capstone::new().x86().mode(ArchMode::Mode32).build(cs_open)?;
//! cs.set_detail(true, cs_option)?;
//! let insns = cs.disasm_all(code, 0x1000, cs_disasm, cs_errno)?;
//! ```
//!
//! [`Capstone`] is the session, [`session`] its mathematical model, [`engine`] the model of the
//! exchanges with the engine, and [`laws`] what holds over many of them.

pub mod arch;
pub mod capstone;
pub mod constants;
pub mod engine;
pub mod error;
pub mod instruction;
pub mod laws;
pub mod session;
pub mod text;

pub use arch::CapstoneBuilder;
pub use capstone::{Capstone, EmptyExtraModeIter, NO_EXTRA_MODE};
pub use constants::{Arch, Endian, ExtraMode, Mode, OptType, OptValue, Syntax};
pub use error::{CapstoneError, CsResult, Error};
pub use instruction::{
    Detail, Insn, InsnDetail, InsnGroupId, InsnGroupIter, InsnId, Instructions, RegId, RegsAccess,
    RegsIter,
};

//! A compact, copyable data model for x86/x64 machine instructions.
//!
//! The crate provides three leaf components, in dependency order:
//! [`Register`], a closed enumeration of the architectural register space
//! with ordinal arithmetic; [`MemorySize`], a closed enumeration of memory
//! operand shapes together with a size/element lookup table; and
//! `Instruction`, a fixed-size record representing one decoded or
//! to-be-encoded instruction, holding every sub-field of the packed
//! encoding — code, length, prefixes, operand kinds, the shared payload
//! pair, memory addressing fields and EVEX decoration — behind bit-exact
//! accessors.

pub mod code;
pub mod instruction;
pub mod laws;
pub mod code_size;
pub mod memory_size;
pub mod op_kind;
pub mod register;
pub mod rounding_control;

pub use code::Code;
pub use code::Mnemonic;
pub use code::NUMBER_OF_CODE_VALUES;
pub use code_size::CodeSize;
pub use instruction::InstrFields;
pub use instruction::Instruction;
pub use memory_size::MemorySize;
pub use memory_size::MemorySizeInfo;
pub use memory_size::FIRST_BROADCAST_MEMORY_SIZE;
pub use memory_size::NUMBER_OF_MEMORY_SIZES;
pub use op_kind::OpKind;
pub use register::Register;
pub use register::NUMBER_OF_REGISTERS;
pub use rounding_control::RoundingControl;

//! Addressed instructions, the symbol table and the Intel HEX image.
pub mod instruction;
pub mod mir;
pub mod symbols;

pub use self::instruction::{Address, Data, Instruction, InstructionError};
pub use self::mir::Mir;
pub use self::symbols::SymbolTable;

//! A two-pass cross-assembler for the 8051 (MCS-51) microcontroller family.
//!
//! Source text is turned into tokens ([`parser::lexer`]), tokens into a
//! program ([`parser::ast`]), the program into addressed instructions with a
//! symbol table ([`mir`]), and those into Intel HEX records.
pub mod mir;
pub mod parser;

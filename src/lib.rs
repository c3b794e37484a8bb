//! Reader for managed (CLI) executable images: the metadata heaps and tables,
//! the signature grammar, method bodies and their IL, and a symbolic evaluator
//! that turns a method body into structured statements.

pub mod error;
pub mod bytes;
pub mod varint;
pub mod text;
pub mod meta;
pub mod header;
pub mod coded;
pub mod strings;
pub mod tables;
pub mod signature;
pub mod opcodes;
pub mod image;
pub mod lowering;
pub mod decompiler;

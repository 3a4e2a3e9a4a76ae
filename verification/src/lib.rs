//! A small virtual machine for Java class files.
//!
//! `parser` decodes a class file: its constant pool, its fields and methods
//! with their attributes, and the instructions of each method body, with
//! every branch counted in instructions. `jvm` holds the loaded classes,
//! the heap, and the interpreter that runs one method's instructions on an
//! operand stack and a set of local slots.
//!
//! Every function is verified against a contract over mathematical values.
//! Floating-point numbers are kept as bit patterns; the interpreter hands
//! each computation on them to its host and takes the result back.

pub mod error;
pub mod helpers;
pub mod jvm;
pub mod parser;
pub mod table;

//! A stack-based virtual machine for the S0 bytecode, with its instruction
//! set and the encoding of instruction streams, its program model and its
//! failure kinds, together with the small types that the compiler front end
//! shares with it: spans of source text, the errors of the code generator,
//! and the text that shows an error with the source that it is about.
//!
//! Every function here is verified against its contract. The machine is
//! specified as a function on states (`vm::state`), and what holds of every
//! run is proved from that function (`vm::laws`).
//!
//! The library holds no floating point and touches no stream. Arithmetic on
//! IEEE-754 doubles is left to the embedder: the machine hands out the
//! operands as a `FloatTask` and takes the result back with `push`. Its
//! input is a queue of bytes that the embedder fills, its output a run of
//! bytes that the embedder takes.

pub mod codec;
pub mod codegen;
pub mod error;
pub mod opcodes;
pub mod s0;
pub mod syntax;
pub mod util;
pub mod vm;

//! Decoding of a process's code-signing state as reported by a kernel
//! control call: flag bitmasks, blob headers, NUL-delimited text fields and
//! fixed-length hashes, together with the operation registry that maps a
//! logical operation to its opcode, buffer capacity and decoder.

pub mod blob;
pub mod errors;
pub mod flags;
pub mod gateway;
pub mod hash;
pub mod registry;
pub mod text;

//! A verified virtual machine for a small 15-bit instruction set: 32768
//! memory cells of 16 bits, 8 general registers, an operand stack shared by
//! push/pop and call/return, and a fetch-decode-execute engine whose exact
//! behaviour — including every fault condition — is stated as a specification
//! and proved of the implementation.

pub mod isa;
pub mod laws;
pub mod machine;

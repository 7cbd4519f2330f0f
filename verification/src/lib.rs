//! Instruction protocol of the SuperBonds program.
//!
//! An instruction travels as one opcode byte followed by a payload of
//! fixed-width little-endian fields. [`instruction`] holds the commands, their
//! wire layout and the decoder; [`le`] the little-endian integers the layout is
//! made of; [`error`] the program's own error codes and their place among the
//! runtime's errors.
pub mod error;
pub mod instruction;
pub mod le;

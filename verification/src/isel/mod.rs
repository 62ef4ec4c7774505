//! Instruction selection, driven by rules that are S-expressions:
//! `(rule (when <condition>) (emit <instruction> <argument> ...))`.
//!
//! In a condition and in arguments, `op` is bound to the name of the native
//! operation, `idx` to its position and `target` to the name of the target.
//! The first value that a rule emits names the instruction; the operands are
//! virtual registers, made from the operands of the native operation.

pub mod rules;
pub mod defaults;
pub mod select;
pub mod laws;
pub mod order;
pub mod replay;
pub mod texts;

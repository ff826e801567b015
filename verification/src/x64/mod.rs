//! Machine code for x86-64: what is put into the code buffer for an instruction.

pub mod args;
pub mod behavior_arith;
pub mod behavior_atomic;
pub mod behavior_basic;
pub mod behavior_bytes;
pub mod behavior_convert;
pub mod behavior_flow;
pub mod behavior_from_integer;
pub mod behavior_unsigned;
pub mod behavior_wide;
pub mod can_emit;
pub mod decoding;
pub mod emit;
pub mod emit_atomic;
pub mod emit_basic;
pub mod emit_convert;
pub mod emit_flow;
pub mod emit_misc;
pub mod emit_vector;
pub mod floats;
pub mod inst;
pub mod labels;
pub mod laws;
pub mod machine;
pub mod opcodes;
pub mod sink;

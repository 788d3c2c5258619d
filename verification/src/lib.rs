//! An instruction-set emulator for a minimal 16-bit, word-addressed teaching
//! architecture: one accumulator, a flat word memory, sixteen primitive
//! operations, and a line-buffered "paper tape" input abstraction.

pub mod machine;
pub mod tape;

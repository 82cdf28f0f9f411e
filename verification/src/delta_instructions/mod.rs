//! Instructions as records of their own, each with its own failures that say
//! what was found in place of what was expected.

pub mod add_instruction;
pub mod copy_instruction;
pub mod errors;
pub mod remove_instruction;
pub mod traits;

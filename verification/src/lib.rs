//! Binary deltas between byte sequences: diffing, a compact wire format and
//! patch application.
//!
//! A patch is an ordered list of instructions that turns a source into a
//! target. There are three kinds of instruction: remove source bytes, add
//! stored bytes, copy source bytes. The longest common subsequence of source
//! and target supplies the anchors along which a diff decides between them.
//!
//! - [`lcs`] computes the anchors.
//! - [`cursor`] is the forward cursor through which bytes are consumed.
//! - [`model`] and [`diff`] say, as mathematics, what instructions are, how
//!   they are encoded, replayed and built; the executable code is specified
//!   against them.
//! - [`instructions`] and [`patch`] hold the instructions whose copies store
//!   a correction for every byte, so that a copy can run across mismatches,
//!   and the patches made of them.
//! - [`delta_instruction`], [`delta_patch`] and [`delta_traits`] hold the
//!   exact instructions, whose copies take source bytes as they are, and the
//!   patches made of them.
//! - [`delta_instructions`] holds each kind of exact instruction as a record
//!   of its own, with failures that tell what was found.
//! - [`decimal`] writes the numbers that failure messages mention.

pub mod cursor;
pub mod decimal;
pub mod delta_instruction;
pub mod delta_instruction_error;
pub mod delta_instructions;
pub mod delta_patch;
pub mod delta_patch_error;
pub mod delta_traits;
pub mod diff;
pub mod instructions;
pub mod lcs;
pub mod model;
pub mod patch;

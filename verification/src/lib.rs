//! Enumeration, decoding and fixed-width rendering of CPU identification
//! registers.
//!
//! The library covers the pure core of a processor-identification dump tool:
//! the deterministic leaf/sub-leaf enumeration plan, the bit-field decoders
//! that turn raw registers into feature tokens, the four fixed-width text
//! encodings with column-aware word wrap, and the positional-diff and
//! ordered-assembly steps used when every logical processor is sampled.
//! Invoking the identification instruction itself, binding processor
//! affinity and all I/O are left to the surrounding program, which hands
//! this library plain register values.

use vstd::prelude::*;

pub mod leaf_plan;
pub mod micro_arch_level;
pub mod opt;
pub mod parse_generic;
pub mod parse_util;
pub mod pool;
pub mod raw_cpuid;
pub mod reg;
pub mod strfmt;

verus! {

/// Width of the leaf/sub-leaf input column, `"  0x00000000 0x0:  "`.
pub const INPUT_WIDTH: usize = 19;

/// Width of the four-register output column, four times `"0x00000000 "`.
pub const OUTPUT_WIDTH: usize = 44;

/// Total line budget of the dump.
pub const TOTAL_WIDTH: usize = 100;

/// Column budget left for decoded feature tokens on one line.
pub const PARSE_WIDTH: usize = 36;

} // verus!

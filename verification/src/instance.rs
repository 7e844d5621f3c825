//! The renderer-facing draw-instance record.

use vstd::prelude::*;

verus! {

/// One draw instance: a world-space block position and the visual block id.
///
/// Field order and widths (three signed 32-bit coordinates followed by one
/// unsigned 32-bit id, 16 bytes in all) are a binary contract with the
/// renderer, which consumes a contiguous array of these records as raw
/// per-instance vertex attributes.
#[derive(Debug, Clone, Copy, PartialEq)]
pub struct Instance {
    /// World-space position, as `[x, y, z]`.
    pub pos: [i32; 3],
    /// Visual block id; never the air id.
    pub block: u32,
}

} // verus!

//! The block-type registry: a small closed set of visual block ids and the
//! mapping from palette entry names onto them.

use vstd::prelude::*;
use vstd::string::StringExecFns;

verus! {

/// Id of the absent block.  No instance is ever emitted for it.
pub const AIR: u32 = 0;

/// The one generic solid id.  The registry deliberately collapses every
/// recognized non-air palette entry to this single visual type; it does not
/// yet distinguish block materials by name.
pub const MOSS: u32 = 1;

/// Whether a palette entry name is the air sentinel.
pub open spec fn is_air_name(name: Seq<char>) -> bool {
    name == "air"@
}

/// The visual id a palette entry name resolves to: air stays absent, every
/// other name collapses to the generic solid id.
pub open spec fn id_of_name(name: Seq<char>) -> u32 {
    if is_air_name(name) {
        AIR
    } else {
        MOSS
    }
}

/// Decide whether a palette entry names air.
pub fn name_is_air(name: &String) -> (b: bool)
    ensures
        b == is_air_name(name@),
{
    let air: String = String::from_str("air");
    *name == air
}

/// Resolve a palette entry name to its visual block id.
pub fn resolve_name(name: &String) -> (id: u32)
    ensures
        id == id_of_name(name@),
{
    if name_is_air(name) {
        AIR
    } else {
        MOSS
    }
}

} // verus!

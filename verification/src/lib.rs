//! Decoding of paletted, section-based voxel chunks into sparse block lists,
//! and flattening of those lists into renderer-ready draw instances.
//!
//! The pipeline runs storage -> chunk building (driving the section decoder)
//! -> world aggregation -> instance flattening.  Everything that computes is
//! verified; the region-file parser is an outside collaborator reached through
//! a handful of trusted declarations in `storage`.

pub mod instance;
pub mod nbt_check;
pub mod registry;
pub mod section;
pub mod storage;
pub mod world;

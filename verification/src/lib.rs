//! A pipeline engine whose stages leave a versioned signature behind.
//!
//! A [`runners::Runner`] couples a sequence of items with the lineage of the
//! stages that produced it. Chaining a stage maps every item and signs the
//! lineage; merging two runners pairs their items and records both ancestries.
//! The lineage is the key under which a result may be cached: two results are
//! interchangeable when their lineages are equal.

pub mod ops;
pub mod runners;
pub mod signatures;

//! Plain records of the adaptive store: its topics, date ranges and index
//! configuration.

use vstd::prelude::*;
use crate::distance::DistanceMetric;

verus! {

/// A topic of the store, with its entries and its place in the hierarchy.
#[derive(Debug, Clone)]
pub struct TopicInfo {
    pub topic: String,
    pub entry_count: usize,
    pub entry_ids: Vec<String>,
    pub parent: Option<String>,
    pub children: Vec<String>,
}

/// One section of the topic catalog.
#[derive(Debug, Clone)]
pub struct TopicCatalogSection {
    pub topic: String,
    pub parent: Option<String>,
    pub children: Vec<String>,
    pub entry_count: usize,
}

/// A range of timestamps (milliseconds), open on a missing side.
#[derive(Debug, Clone, Copy, PartialEq, Eq, Structural)]
pub struct DateRange {
    pub after: Option<u64>,
    pub before: Option<u64>,
}

/// Strategy for vector index backing the store's search operations.
#[derive(Debug, Clone, Copy, PartialEq, Eq, Structural)]
pub enum IndexStrategy {
    /// Automatically choose: flat for small stores, HNSW above the threshold.
    Auto,
    /// Always use brute-force flat scan.
    Flat,
    /// Always use HNSW approximate nearest-neighbor index.
    Hnsw,
}

impl Default for IndexStrategy {
    fn default() -> (r: Self)
        ensures
            r == IndexStrategy::Auto,
    {
        IndexStrategy::Auto
    }
}

/// Statistics about the current index configuration.
#[derive(Debug, Clone)]
pub struct IndexStats {
    /// The index type currently in effect (`"flat"` or `"hnsw"`).
    pub index_type: String,
    /// Number of vectors in the store.
    pub vector_count: usize,
    /// Dimensionality of stored vectors (0 if store is empty).
    pub dimensions: usize,
    /// The distance metric configured for searches.
    pub metric: DistanceMetric,
}

} // verus!

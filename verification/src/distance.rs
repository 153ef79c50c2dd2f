//! The distance metrics offered for vector similarity search.

use vstd::prelude::*;

verus! {

/// Supported distance metrics for vector similarity search.
#[derive(Debug, Clone, Copy, PartialEq, Eq, Hash, Structural)]
pub enum DistanceMetric {
    Cosine,
    Euclidean,
    DotProduct,
    Manhattan,
}

impl Default for DistanceMetric {
    fn default() -> (r: Self)
        ensures
            r == DistanceMetric::Cosine,
    {
        DistanceMetric::Cosine
    }
}

/// The snake_case name under which a metric is written in configuration.
pub open spec fn metric_name(m: DistanceMetric) -> Seq<char> {
    match m {
        DistanceMetric::Cosine => "cosine"@,
        DistanceMetric::Euclidean => "euclidean"@,
        DistanceMetric::DotProduct => "dot_product"@,
        DistanceMetric::Manhattan => "manhattan"@,
    }
}

impl DistanceMetric {
    /// The configuration name of the metric.
    pub fn as_str(&self) -> (r: &'static str)
        ensures
            r@ == metric_name(*self),
    {
        match self {
            DistanceMetric::Cosine => "cosine",
            DistanceMetric::Euclidean => "euclidean",
            DistanceMetric::DotProduct => "dot_product",
            DistanceMetric::Manhattan => "manhattan",
        }
    }
}

} // verus!

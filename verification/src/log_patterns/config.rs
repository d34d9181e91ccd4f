//! Settings of pattern extraction.
use vstd::prelude::*;

verus! {

/// Settings of pattern extraction.
///
/// The similarity threshold is the fraction `similarity_num / similarity_den`: a log joins
/// a cluster when at least that share of the cluster's template tokens match it.
#[derive(Clone, Debug)]
pub struct PatternExtractionConfig {
    /// Largest number of logs collected for one extraction.
    pub max_logs_for_extraction: usize,
    /// Fewest logs a cluster needs to be reported as a pattern.
    pub min_cluster_size: usize,
    /// Numerator of the similarity threshold.
    pub similarity_num: u64,
    /// Denominator of the similarity threshold.
    pub similarity_den: u64,
    /// Depth of the parse tree.
    pub xdrain_depth: usize,
    /// Largest number of children of a parse-tree node.
    pub xdrain_max_child: usize,
    /// Largest number of patterns reported.
    pub max_clusters: usize,
    /// Shortest token, in bytes, that takes part in clustering.
    pub min_field_length: usize,
    /// Fields read first for the log message of a record.
    pub fts_fields: Vec<String>,
}

impl Default for PatternExtractionConfig {
    /// 10000 logs, clusters of at least 2, similarity 3/5, depth 4, 100 children,
    /// 1000 patterns, tokens of at least 1 byte, no message fields.
    fn default() -> (r: Self)
        ensures
            r.max_logs_for_extraction == 10000,
            r.min_cluster_size == 2,
            r.similarity_num == 3,
            r.similarity_den == 5,
            r.xdrain_depth == 4,
            r.xdrain_max_child == 100,
            r.max_clusters == 1000,
            r.min_field_length == 1,
            r.fts_fields@.len() == 0,
    {
        PatternExtractionConfig {
            max_logs_for_extraction: 10000,
            min_cluster_size: 2,
            similarity_num: 3,
            similarity_den: 5,
            xdrain_depth: 4,
            xdrain_max_child: 100,
            max_clusters: 1000,
            min_field_length: 1,
            fts_fields: Vec::new(),
        }
    }
}

impl PatternExtractionConfig {
    /// The default settings.
    pub fn new() -> (r: Self)
        ensures
            r.max_logs_for_extraction == 10000,
            r.min_cluster_size == 2,
            r.similarity_num == 3,
            r.similarity_den == 5,
            r.xdrain_depth == 4,
            r.xdrain_max_child == 100,
            r.max_clusters == 1000,
            r.min_field_length == 1,
            r.fts_fields@.len() == 0,
    {
        Self::default()
    }

    /// The same settings with another limit on collected logs.
    pub fn with_max_logs(self, max_logs: usize) -> (r: Self)
        ensures
            r == (PatternExtractionConfig { max_logs_for_extraction: max_logs, ..self }),
    {
        PatternExtractionConfig { max_logs_for_extraction: max_logs, ..self }
    }

    /// The same settings with another smallest reported cluster.
    pub fn with_min_cluster_size(self, size: usize) -> (r: Self)
        ensures
            r == (PatternExtractionConfig { min_cluster_size: size, ..self }),
    {
        PatternExtractionConfig { min_cluster_size: size, ..self }
    }

    /// The same settings with the similarity threshold `num / den`, held to at most 1.
    pub fn with_similarity_threshold(self, num: u64, den: u64) -> (r: Self)
        requires
            den > 0,
        ensures
            r == (PatternExtractionConfig {
                similarity_num: if num <= den { num } else { den },
                similarity_den: den,
                ..self
            }),
    {
        let clamped = if num <= den { num } else { den };
        PatternExtractionConfig { similarity_num: clamped, similarity_den: den, ..self }
    }

    /// The same settings with another parse-tree depth.
    pub fn with_drain_depth(self, depth: usize) -> (r: Self)
        ensures
            r == (PatternExtractionConfig { xdrain_depth: depth, ..self }),
    {
        PatternExtractionConfig { xdrain_depth: depth, ..self }
    }

    /// The same settings with another limit on children per parse-tree node.
    pub fn with_max_child(self, max_child: usize) -> (r: Self)
        ensures
            r == (PatternExtractionConfig { xdrain_max_child: max_child, ..self }),
    {
        PatternExtractionConfig { xdrain_max_child: max_child, ..self }
    }

    /// The same settings with other message fields.
    pub fn with_fts_fields(self, fields: Vec<String>) -> (r: Self)
        ensures
            r == (PatternExtractionConfig { fts_fields: fields, ..self }),
    {
        PatternExtractionConfig { fts_fields: fields, ..self }
    }
}

} // verus!

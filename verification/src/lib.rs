//! Stylistic fingerprinting of free-text devlog entries.
//!
//! The crate extracts a fixed-shape record of stylistic counts from raw
//! text (pattern hits, irregular punctuation, markdown structure, emoji),
//! assembles a weighted feature vector from it, and scores the vector
//! against a two-centroid writing-style model to produce a human/AI
//! confidence split.

pub mod features;
pub mod markdown;
pub mod matcher;
pub mod metrics;
pub mod model;
pub mod patterns;
pub mod predict;
pub mod segment;
pub mod summer_of_making;
pub mod text;
pub mod unicode;

pub use features::{features_from_metrics, to_vector, FeatureVector};
pub use matcher::{Matcher, PatternBuildError};
pub use metrics::{TextMetricFactory, TextMetrics};
pub use model::{point_confidence, ClusterModel, Confidence, ModelError};
pub use predict::{predict, Prediction};
pub use summer_of_making::{
    combine_corpus, remaining_pages, retry_decision, Devlog, Devlogs, PagintatedResponse,
    Pagination, Project, Projects, RetryStep,
};
pub use text::count_matches;

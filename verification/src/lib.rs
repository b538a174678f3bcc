//! A small, explainable recommender for a personal watch library.
//!
//! Items are described by multi-hot genre vectors over a fixed taxonomy, a
//! viewer's taste is the recency-weighted average of the vectors of the items
//! they saved, and fresh candidates are ranked by their dot product with that
//! average. All arithmetic is exact: a profile keeps the weighted sums and
//! their common denominator as integers.

pub mod accounts;
pub mod catalog;
pub mod detail;
pub mod error;
pub mod feed;
pub mod forms;
pub mod genres;
pub mod history;
pub mod order;
pub mod profile;
pub mod svd;
pub mod text;
pub mod video;

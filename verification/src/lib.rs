//! Health scoring for a source-code repository.
//!
//! Scores and weights are fixed-point numbers with four decimal digits of
//! scale: a score of `10_000` is a full 100 points, a weight of `10_000` is 1.

pub mod analyzers;
pub mod cli;
pub mod error;
pub mod github;
pub mod output;
pub mod scoring;
pub mod text;

pub use error::RepoHealthError;

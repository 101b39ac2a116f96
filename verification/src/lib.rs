//! Pairwise linear association over sample vectors and arrays: what is
//! decided before any arithmetic is done.
//!
//! The estimators themselves work on doubles. This crate holds the part of
//! them that does not: how an array is reduced when an axis has extent one,
//! how variables are oriented and joined, which divisor a covariance takes,
//! which entries of a covariance each correlation coefficient is made of,
//! and which samples and hypotheses the Pearson estimator accepts. Arrays
//! are generic in their entries, so callers pass doubles through unchanged.

pub mod correlation;
pub mod covariance;
pub mod error;
pub mod matrix;
pub mod pearson;
pub mod shape;

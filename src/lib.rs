//! Layout and aggregation engine of a fixed-width status bar.
//!
//! Segments are described by [`config::Element`]; their latest texts and
//! widths live in an [`aggregator::Aggregator`], which turns them into one
//! renderable line through the pure layout function in [`layout`].

pub mod config;
pub mod decimal;
pub mod layout;
pub mod markup;
pub mod measure;
pub mod aggregator;
pub mod producer;

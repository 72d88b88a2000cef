//! Core of a single blog-post page: identifier validation, classification of
//! the asynchronous fetch outcome, derived display metrics (word count with
//! thousands grouping, estimated reading time), and a staged
//! loading/error/ready presentation state machine that yields the page
//! fragment and head metadata for each state.

pub mod errors;
pub mod numerals;
pub mod dates;
pub mod post;
pub mod identifier;
pub mod metrics;
pub mod viewmodel;
pub mod stager;

//! A small, chainable error value: a category tag, a human-readable
//! message, and an optional wrapped cause.

pub mod error;

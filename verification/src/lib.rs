//! Content store, cache layer and maintenance protocol of a small blog engine.
//!
//! The store is a plain value: every operation takes `&self` or `&mut self`
//! and the moment in time as an argument, so that a caller is free to share
//! it behind whatever lock it likes.

pub mod auth;
pub mod blog;
pub mod config;
pub mod lists;
pub mod pattern;
pub mod text;
pub mod utils;

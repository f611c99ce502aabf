//! The content records that the store keeps.

pub mod comment;
pub mod menu;
pub mod post;
pub mod redirect;
pub mod snippet;
pub mod tag;

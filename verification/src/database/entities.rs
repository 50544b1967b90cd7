//! The rows that the store keeps.

pub mod item;
pub mod tag;
pub mod tag_category;

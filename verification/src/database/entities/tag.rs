//! A label that classifies items.

use vstd::prelude::*;

verus! {

/// A label; `category` is the id of its [`TagCategory`](super::tag_category::TagCategory).
#[derive(Debug, Clone, PartialEq, Eq)]
pub struct Tag {
    pub id: i64,
    pub name: String,
    pub category: i64,
}

} // verus!

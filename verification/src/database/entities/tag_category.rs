//! A group of tags.

use vstd::prelude::*;

verus! {

/// A group that tags belong to.
#[derive(Debug, Clone, PartialEq, Eq)]
pub struct TagCategory {
    pub id: i64,
    pub name: String,
}

} // verus!

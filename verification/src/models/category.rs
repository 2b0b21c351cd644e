//! Article categories.

use vstd::prelude::*;

verus! {

/// A category row.
#[derive(Debug, Clone)]
pub struct Category {
    pub id: i32,
    pub name: String,
    pub slug: String,
    pub description: Option<String>,
}

} // verus!

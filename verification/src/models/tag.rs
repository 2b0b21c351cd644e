//! Tags and the request that creates one.

use vstd::prelude::*;

verus! {

/// A tag row.
#[derive(Debug, Clone)]
pub struct Tag {
    pub id: i32,
    pub name: String,
    pub slug: String,
}

/// The body of a request that creates a tag; the slug is derived from the
/// name when it is absent.
#[derive(Debug, Clone)]
pub struct CreateTagSchema {
    pub name: String,
    pub slug: Option<String>,
}

} // verus!

//! Tags and the ways to query them.

use vstd::prelude::*;
use crate::models::ideas::{Idea, Sort};

verus! {

/// A tag as the database holds it, with the ideas that carry it where they
/// were asked for.
#[derive(Debug, Clone)]
pub struct Tag {
    pub _key: String,
    pub _id: String,
    /// How many ideas carry the tag.
    pub count: u64,
    pub ideas: Vec<Idea>,
}

/// A request for tags.
#[derive(Debug)]
pub struct QueryTag {
    /// The keys of the tags asked for; all tags where none.
    pub id: Option<Vec<String>>,
    /// Whether each tag comes with its ideas.
    pub with_ideas: bool,
    pub sort: Sort,
}

} // verus!

//! Ideas, their owners, the ways to query them and the votes cast on them.

use vstd::prelude::*;

verus! {

/// The owner (a user) of an idea, as an idea shows it.
#[derive(Debug, Clone)]
pub struct Owner {
    /// The user's key.
    pub id: String,
    /// The user's name.
    pub username: String,
}

impl Default for Owner {
    fn default() -> (o: Owner)
        ensures
            o.id@ == Seq::<char>::empty(),
            o.username@ == Seq::<char>::empty(),
    {
        Owner { id: String::new(), username: String::new() }
    }
}

/// An idea as the database holds it.
#[derive(Debug, Clone)]
pub struct Idea {
    /// The document's `_id`.
    pub id: String,
    /// The document's `_key`.
    pub key: String,
    /// The text of the idea.
    pub text: String,
    pub owner: Owner,
    pub upvotes: u32,
    pub downvotes: u32,
    pub tags: Vec<String>,
    /// When the idea was stored, in milliseconds since the Unix epoch.
    pub date: i64,
}

/// An idea to be stored.
#[derive(Debug, Clone)]
pub struct NewIdea {
    /// The text of the idea.
    pub text: String,
    /// The key of the user who owns it.
    pub owner_id: String,
    pub tags: Vec<String>,
}

/// The document stored for a new idea: its text, owner and tags, with no
/// vote yet. The database adds the date.
#[derive(Debug, Clone)]
pub struct IdeaDraft {
    pub text: String,
    pub owner: Owner,
    pub upvotes: u32,
    pub downvotes: u32,
    pub tags: Vec<String>,
    /// The votes cast on it, by voter.
    pub votes: Vec<(String, bool)>,
}

impl IdeaDraft {
    /// The document stored for `idea`, owned by `owner`.
    pub fn from_new(idea: &NewIdea, owner: Owner) -> (d: IdeaDraft)
        ensures
            d.text@ == idea.text@,
            d.tags.deep_view() == idea.tags.deep_view(),
            d.owner == owner,
            d.upvotes == 0,
            d.downvotes == 0,
            d.votes@.len() == 0,
    {
        IdeaDraft {
            text: idea.text.clone(),
            owner,
            upvotes: 0,
            downvotes: 0,
            tags: crate::text::clone_strings(&idea.tags),
            votes: Vec::new(),
        }
    }
}

/// The order in which ideas are listed.
#[derive(Debug, Clone, Copy, PartialEq, Eq, Structural)]
pub enum Sort {
    /// Newest first.
    ALL,
    /// Best ratio of upvotes to all votes first.
    BRIGHT,
}

/// Which page of a listing to return.
#[derive(Debug, Clone, Copy, PartialEq, Eq, Structural)]
pub struct Pagination {
    /// How many ideas the page holds (zero: no limit).
    pub count: u32,
    /// How many ideas come before the page.
    pub offset: u32,
}

/// A request for ideas.
#[derive(Debug)]
pub struct QueryIdea {
    pub sort: Sort,
    /// The key of one idea to return.
    pub id: Option<String>,
    /// The owner's name.
    pub owner: Option<String>,
    /// The owner's key.
    pub owner_id: Option<String>,
    /// Tags that every idea returned carries.
    pub tags: Option<Vec<String>>,
    pub limit: Option<u32>,
    /// Words to search the ideas' texts for.
    pub query: Option<String>,
    pub pagination: Option<Pagination>,
}

impl Default for QueryIdea {
    fn default() -> (q: QueryIdea)
        ensures
            q.sort == Sort::ALL,
            q.id is None,
            q.owner is None,
            q.owner_id is None,
            q.tags is None,
            q.limit is None,
            q.query is None,
            q.pagination is None,
    {
        QueryIdea {
            sort: Sort::ALL,
            id: None,
            owner: None,
            owner_id: None,
            tags: None,
            limit: None,
            query: None,
            pagination: None,
        }
    }
}

/// A user's vote on an idea, as the request carries it.
#[derive(Debug, Clone)]
pub struct CastVote {
    /// The key of the idea.
    pub idea_id: String,
    /// The voter's bearer token.
    pub u_token: String,
    /// `upvote` or `downvote`.
    pub vote: String,
}

/// What the database reports after recording a vote: the idea's `_id` and
/// the voter's vote before and after.
#[derive(Debug, Clone)]
pub struct VoteStatus {
    pub idea_id: String,
    pub prev: Option<String>,
    pub new: Option<String>,
}

} // verus!

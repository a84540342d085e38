//! Users and the ways to look them up.

use vstd::prelude::*;

verus! {

/// A user as the database holds it.
#[derive(Debug, Clone)]
pub struct User {
    /// The document's `_key`.
    pub key: String,
    /// The document's `_id`.
    pub id: String,
    pub username: String,
    pub email: String,
    /// The user's ideas, by key; no key occurs twice.
    pub ideas: Vec<(String, String)>,
    pub active: bool,
    pub favorite: String,
    pub upvotes: u32,
    pub downvotes: u32,
    /// The user's votes (`upvote` or `downvote`), by idea key; no key occurs
    /// twice.
    pub votes: Option<Vec<(String, String)>>,
    /// When the user signed up, in milliseconds since the Unix epoch.
    pub created_at: i64,
}

/// No key occurs twice among `entries`.
pub open spec fn keys_unique(entries: Seq<(String, String)>) -> bool {
    forall|i: int, j: int|
        0 <= i < entries.len() && 0 <= j < entries.len() && i != j ==> entries[i].0@
            != entries[j].0@
}

/// Whether no key occurs twice among `entries`.
pub fn keys_are_unique(entries: &Vec<(String, String)>) -> (r: bool)
    ensures
        r == keys_unique(entries@),
{
    let n = entries.len();
    let mut i: usize = 0;
    while i < n
        invariant
            n == entries@.len(),
            i <= n,
            forall|a: int, b: int| 0 <= a < i && 0 <= b < n && a != b ==> entries@[a].0@ != entries@[b].0@,
        decreases n - i,
    {
        let mut j: usize = 0;
        while j < n
            invariant
                n == entries@.len(),
                i < n,
                j <= n,
                forall|a: int, b: int| 0 <= a < i && 0 <= b < n && a != b ==> entries@[a].0@ != entries@[b].0@,
                forall|b: int| 0 <= b < j && b != i ==> entries@[i as int].0@ != entries@[b].0@,
            decreases n - j,
        {
            if j != i && entries[i].0 == entries[j].0 {
                return false;
            }
            j += 1;
        }
        i += 1;
    }
    true
}

impl User {
    /// The maps that the user record holds have no key twice.
    pub open spec fn wf(&self) -> bool {
        &&& keys_unique(self.ideas@)
        &&& (self.votes matches Some(v) ==> keys_unique(v@))
    }

    /// Whether the maps that the user record holds have no key twice (as
    /// the database's documents, whose maps these are, always have).
    pub fn is_wf(&self) -> (r: bool)
        ensures
            r == self.wf(),
    {
        if !keys_are_unique(&self.ideas) {
            return false;
        }
        match &self.votes {
            Some(v) => keys_are_unique(v),
            None => true,
        }
    }
}

/// A request for a user, by bearer token or by key.
#[derive(Debug)]
pub struct QueryUser {
    /// Find the token, then the user it belongs to.
    pub token: Option<String>,
    pub id: Option<String>,
}

/// The query parameters of a request for a user.
#[derive(Debug)]
pub struct QUserParams {
    pub include_ideas: Option<bool>,
}

/// A request for a user: by bearer token or by key.
#[derive(Debug, Clone)]
pub enum QUser {
    TOKEN(String),
    ID(String),
}

/// A user to be stored.
#[derive(Debug, Clone)]
pub struct NewUser {
    pub username: String,
    pub email: String,
    pub ideas: Vec<String>,
    pub active: bool,
    pub favorite: String,
    pub upvotes: u32,
    pub downvotes: u32,
    pub created_at: i64,
}

impl Default for NewUser {
    fn default() -> (u: NewUser)
        ensures
            u.username@ == Seq::<char>::empty(),
            u.email@ == Seq::<char>::empty(),
            u.ideas@.len() == 0,
            !u.active,
            u.favorite@ == Seq::<char>::empty(),
            u.upvotes == 0,
            u.downvotes == 0,
            u.created_at == 0,
    {
        NewUser {
            username: String::new(),
            email: String::new(),
            ideas: Vec::new(),
            active: false,
            favorite: String::new(),
            upvotes: 0,
            downvotes: 0,
            created_at: 0,
        }
    }
}

} // verus!

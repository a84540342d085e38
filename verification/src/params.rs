//! The parameters that requests carry, and the requests to the library that
//! they come to: pages, listing orders, tag lists, new ideas and votes.

use vstd::prelude::*;
use crate::error::ServiceError;
use crate::handler::ideas::DeleteIdea;
use crate::models::challenge::Signup;
use crate::models::ideas::{CastVote, NewIdea, Pagination, QueryIdea, Sort};
use crate::models::users::NewUser;
use crate::text::{split_on, split_text, str_eq};
use vstd::utf8::{encode_utf8, is_ascii_chars};

verus! {

/// The query parameters of a request for ideas.
#[derive(Debug, Clone)]
pub struct Param {
    pub id: Option<String>,
    /// Tags, separated by commas.
    pub tags: Option<String>,
    pub count: Option<u32>,
    pub offset: Option<u32>,
    /// Words to search for.
    pub q: Option<String>,
}

/// The page that `offset` and `count` ask for: one only where both are
/// given.
pub fn paginate(offset: Option<u32>, count: Option<u32>) -> (page: Option<Pagination>)
    ensures
        page == match (offset, count) {
            (Some(o), Some(c)) => Some(Pagination { count: c, offset: o }),
            _ => None::<Pagination>,
        },
{
    match (offset, count) {
        (Some(o), Some(c)) => Some(Pagination { count: c, offset: o }),
        _ => None,
    }
}

/// The lowercase form of `s`, as `str::to_lowercase` gives it.
pub uninterp spec fn lowercase(s: Seq<char>) -> Seq<char>;

/// `c` with `A`-`Z` turned into `a`-`z`.
pub open spec fn ascii_lower_char(c: char) -> char {
    if 'A' <= c && c <= 'Z' {
        ((c as int) + 32) as char
    } else {
        c
    }
}

/// `s` with its ASCII capitals turned into small letters.
pub open spec fn ascii_lowercase(s: Seq<char>) -> Seq<char> {
    s.map_values(|c: char| ascii_lower_char(c))
}

/// Calls `str::to_lowercase`: the result is the lowercase form of `s`, a
/// function of `s` alone; for an ASCII `s` it is `s` with `A`-`Z` turned
/// into `a`-`z` (the Unicode lowercase mapping of ASCII). Nothing more is
/// stated of it.
#[verifier::external_body]
fn to_lowercase(s: &str) -> (r: String)
    ensures
        r@ == lowercase(s@),
        is_ascii_chars(s@) ==> r@ == ascii_lowercase(s@),
{
    s.to_lowercase()
}

/// The order that a lowercased path segment asks for: `bright` asks for the
/// best-rated ideas first; anything else for the newest first.
pub fn sort_from_lowercase(lower: &str) -> (sort: Sort)
    ensures
        sort == (if lower@ == "bright"@ {
            Sort::BRIGHT
        } else {
            Sort::ALL
        }),
{
    if str_eq(lower, "bright") {
        Sort::BRIGHT
    } else {
        Sort::ALL
    }
}

/// The order that the path segment `path` asks for, whatever its case.
pub fn sort_from_path(path: &str) -> (sort: Sort)
    ensures
        sort == (if lowercase(path@) == "bright"@ {
            Sort::BRIGHT
        } else {
            Sort::ALL
        }),
        is_ascii_chars(path@) ==> sort == (if ascii_lowercase(path@) == "bright"@ {
            Sort::BRIGHT
        } else {
            Sort::ALL
        }),
{
    let lower = to_lowercase(path);
    sort_from_lowercase(lower.as_str())
}

/// The path segment `all` asks for the newest ideas first, as a listing
/// without a segment does: it is ASCII and its lowercase form is not
/// `bright`.
pub proof fn lemma_all_path_lists_newest_first()
    ensures
        is_ascii_chars("all"@),
        ascii_lowercase("all"@) != "bright"@,
{
    reveal_strlit("all");
    reveal_strlit("bright");
    assert(ascii_lowercase("all"@).len() != "bright"@.len());
}

/// The tags that a comma-separated list names.
pub fn split_tags(tags: &str) -> (list: Vec<String>)
    ensures
        list.deep_view() == split_on(tags@, ','),
{
    split_text(tags, ',')
}

/// The request for ideas that the query parameters `params` make, in the
/// order `sort`: on the page they ask for, with their search words where
/// these are not empty, and with the tags of their comma-separated list.
pub fn query_from_params(params: &Param, sort: Sort) -> (q: QueryIdea)
    ensures
        q.sort == sort,
        q.pagination == match (params.offset, params.count) {
            (Some(o), Some(c)) => Some(Pagination { count: c, offset: o }),
            _ => None::<Pagination>,
        },
        match params.q {
            Some(words) => if words@.len() > 0 {
                q.query matches Some(w) && w@ == words@
            } else {
                q.query is None
            },
            None => q.query is None,
        },
        match params.tags {
            Some(t) => q.tags matches Some(list) && list.deep_view() == split_on(t@, ','),
            None => q.tags is None,
        },
        q.id is None,
        q.owner is None,
        q.owner_id is None,
        q.limit is None,
{
    let mut q = QueryIdea {
        sort,
        id: None,
        owner: None,
        owner_id: None,
        tags: None,
        limit: None,
        query: None,
        pagination: paginate(params.offset, params.count),
    };
    match &params.q {
        Some(words) => {
            if words.as_str().unicode_len() > 0 {
                q.query = Some(words.clone());
            }
        },
        None => {},
    }
    match &params.tags {
        Some(t) => {
            q.tags = Some(split_tags(t.as_str()));
        },
        None => {},
    }
    q
}

impl QueryIdea {
    /// A request for the idea with the key `id`.
    pub fn by_id(id: String) -> (q: QueryIdea)
        ensures
            q.id == Some(id),
            q.sort == Sort::ALL,
            q.owner is None,
            q.owner_id is None,
            q.tags is None,
            q.limit is None,
            q.query is None,
            q.pagination is None,
    {
        QueryIdea {
            sort: Sort::ALL,
            id: Some(id),
            owner: None,
            owner_id: None,
            tags: None,
            limit: None,
            query: None,
            pagination: None,
        }
    }
}

/// The most bytes (in UTF-8) that the text of an idea may take.
pub const MAX_IDEA_TEXT_BYTES: usize = 140;

/// Why a new idea is refused.
#[derive(Debug, Clone, Copy, PartialEq, Eq, Structural)]
pub enum IdeaRejection {
    /// Its text is longer than allowed.
    TextTooLong,
}

impl IdeaRejection {
    /// The HTTP status of the answer (422, unprocessable entity).
    pub fn status_code(&self) -> (code: u16)
        ensures
            code == 422,
    {
        422
    }

    /// The reason the answer gives.
    pub fn reason(&self) -> (text: String)
        ensures
            text@ == "Text length supplied is greater than allowed."@,
    {
        "Text length supplied is greater than allowed.".to_owned()
    }
}

/// The length in bytes that `s` takes in UTF-8, as `str::len` reports it.
pub open spec fn byte_len(s: Seq<char>) -> usize {
    encode_utf8(s).len() as usize
}

impl NewIdea {
    /// The new idea with the text `text` of the user with key `owner_id`,
    /// carrying `tags`; refused where its text takes more than 140 bytes.
    pub fn checked(text: String, owner_id: String, tags: Vec<String>) -> (r: Result<NewIdea, IdeaRejection>)
        ensures
            byte_len(text@) > MAX_IDEA_TEXT_BYTES ==> r == Err::<NewIdea, IdeaRejection>(IdeaRejection::TextTooLong),
            byte_len(text@) <= MAX_IDEA_TEXT_BYTES ==> r == Ok::<NewIdea, IdeaRejection>(NewIdea { text, owner_id, tags }),
    {
        if text.as_str().len() > MAX_IDEA_TEXT_BYTES {
            Err(IdeaRejection::TextTooLong)
        } else {
            Ok(NewIdea { text, owner_id, tags })
        }
    }
}

impl CastVote {
    /// The vote that a request to vote `vote` on the idea with key
    /// `idea_id`, carrying the bearer token `token` or none, comes to: a
    /// vote other than `upvote` or `downvote` is not found; a request
    /// without a token is a bad request.
    pub fn from_request(idea_id: String, vote: String, token: Option<String>) -> (r: Result<CastVote, ServiceError>)
        ensures
            !(vote@ == "upvote"@ || vote@ == "downvote"@) ==> r == Err::<CastVote, ServiceError>(ServiceError::NotFound),
            (vote@ == "upvote"@ || vote@ == "downvote"@) ==> match token {
                Some(t) => r == Ok::<CastVote, ServiceError>(CastVote { idea_id, u_token: t, vote }),
                None => r == Err::<CastVote, ServiceError>(ServiceError::BadRequest),
            },
    {
        if !(str_eq(vote.as_str(), "upvote") || str_eq(vote.as_str(), "downvote")) {
            return Err(ServiceError::NotFound);
        }
        match token {
            Some(t) => Ok(CastVote { idea_id, u_token: t, vote }),
            None => Err(ServiceError::BadRequest),
        }
    }
}

/// What a recorded vote is answered with: nothing more where the database
/// recorded it, not found otherwise.
pub fn vote_outcome(recorded: bool) -> (r: Result<(), ServiceError>)
    ensures
        r == (if recorded {
            Ok::<(), ServiceError>(())
        } else {
            Err(ServiceError::NotFound)
        }),
{
    if recorded {
        Ok(())
    } else {
        Err(ServiceError::NotFound)
    }
}

impl DeleteIdea {
    /// The deletion that a request to delete the idea with key `idea_id`,
    /// carrying the bearer token `token` or none, comes to: a request
    /// without a token is a bad request.
    pub fn from_request(idea_id: String, token: Option<String>) -> (r: Result<DeleteIdea, ServiceError>)
        ensures
            match token {
                Some(t) => r == Ok::<DeleteIdea, ServiceError>(DeleteIdea { token: t, idea_id }),
                None => r == Err::<DeleteIdea, ServiceError>(ServiceError::BadRequest),
            },
    {
        match token {
            Some(t) => Ok(DeleteIdea { token: t, idea_id }),
            None => Err(ServiceError::BadRequest),
        }
    }
}

/// What a request to delete an idea is answered with: nothing more where
/// the idea was found among the requester's ideas (and deleted), a bad
/// request otherwise.
pub fn deletion_outcome(found: bool) -> (r: Result<(), ServiceError>)
    ensures
        r == (if found {
            Ok::<(), ServiceError>(())
        } else {
            Err(ServiceError::BadRequest)
        }),
{
    if found {
        Ok(())
    } else {
        Err(ServiceError::BadRequest)
    }
}

impl NewUser {
    /// Whether this is the user that the sign-up form `form` makes, signed
    /// up at `created_at`: not active yet, with no idea, favourite or vote.
    pub open spec fn is_signup_of(self, form: Signup, created_at: i64) -> bool {
        &&& self.username@ == form.username@
        &&& self.email@ == form.email@
        &&& self.created_at == created_at
        &&& !self.active
        &&& self.ideas@.len() == 0
        &&& self.favorite@ == Seq::<char>::empty()
        &&& self.upvotes == 0
        &&& self.downvotes == 0
    }

    /// The user that the sign-up form `form` makes, signed up at
    /// `created_at` (see [`NewUser::is_signup_of`]).
    pub fn signup(form: &Signup, created_at: i64) -> (u: NewUser)
        ensures
            u.is_signup_of(*form, created_at),
    {
        NewUser {
            username: form.username.clone(),
            email: form.email.clone(),
            ideas: Vec::new(),
            active: false,
            favorite: String::new(),
            upvotes: 0,
            downvotes: 0,
            created_at,
        }
    }
}

} // verus!

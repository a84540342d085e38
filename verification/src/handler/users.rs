//! The AQL queries for users, and the counting of a user's votes.

use vstd::prelude::*;
use crate::aql::{AqlRequest, AqlView, BindValue, BindValueView};
use crate::models::users::{QUser, QueryUser, User};

verus! {

/// The query that finds the user a bearer token belongs to, with the user's
/// votes by idea key.
pub open spec fn user_by_token_text() -> Seq<char> {
    "\nlet u = FIRST (FOR u in 1..1 OUTBOUND DOCUMENT('bearer_tokens', @ele) bearer_to_user RETURN u)\nlet votes = (FOR v, e in 1..1 INBOUND u._id idea_voter RETURN {[v._key]: e.vote })\nreturn Merge(u, {votes: MERGE(votes)})\n"@
}

/// The query that finds a user by key.
pub open spec fn user_by_id_text() -> Seq<char> {
    "RETURN DOCUMENT('users', @ele)"@
}

fn user_by_token_query(token: &String) -> (r: AqlRequest)
    ensures
        r@ == (AqlView {
            query: user_by_token_text(),
            bind_vars: seq![("ele"@, BindValueView::Text(token@))],
            batch_size: Some(1),
        }),
{
    let r = AqlRequest::new(
        "\nlet u = FIRST (FOR u in 1..1 OUTBOUND DOCUMENT('bearer_tokens', @ele) bearer_to_user RETURN u)\nlet votes = (FOR v, e in 1..1 INBOUND u._id idea_voter RETURN {[v._key]: e.vote })\nreturn Merge(u, {votes: MERGE(votes)})\n",
    ).bind_var("ele", BindValue::Text(token.clone())).batch_size(1);
    assert(r@.bind_vars =~= seq![("ele"@, BindValueView::Text(token@))]);
    r
}

impl QueryUser {
    /// The request that finds the user of the token, where there is one;
    /// else an empty query (which the database refuses).
    pub fn aql(&self) -> (r: AqlRequest)
        ensures
            match self.token {
                Some(t) => r@ == (AqlView {
                    query: user_by_token_text(),
                    bind_vars: seq![("ele"@, BindValueView::Text(t@))],
                    batch_size: Some(1),
                }),
                None => r@ == (AqlView {
                    query: ""@,
                    bind_vars: Seq::empty(),
                    batch_size: None,
                }),
            },
    {
        match &self.token {
            Some(t) => user_by_token_query(t),
            None => AqlRequest::new(""),
        }
    }
}

impl QUser {
    /// The request that finds the user: by bearer token or by key.
    pub fn aql(&self) -> (r: AqlRequest)
        ensures
            match self {
                QUser::TOKEN(t) => r@ == (AqlView {
                    query: user_by_token_text(),
                    bind_vars: seq![("ele"@, BindValueView::Text(t@))],
                    batch_size: Some(1),
                }),
                QUser::ID(id) => r@ == (AqlView {
                    query: user_by_id_text(),
                    bind_vars: seq![("ele"@, BindValueView::Text(id@))],
                    batch_size: Some(1),
                }),
            },
    {
        match self {
            QUser::TOKEN(t) => user_by_token_query(t),
            QUser::ID(id) => {
                let r = AqlRequest::new("RETURN DOCUMENT('users', @ele)").bind_var(
                    "ele",
                    BindValue::Text(id.clone()),
                ).batch_size(1);
                assert(r@.bind_vars =~= seq![("ele"@, BindValueView::Text(id@))]);
                r
            },
        }
    }

    /// The request for the user asked for with the bearer token `token`; a
    /// request without one asks with the token `None`.
    pub fn from_token(token: Option<String>) -> (q: QUser)
        ensures
            match token {
                Some(t) => q == QUser::TOKEN(t),
                None => q matches QUser::TOKEN(s) && s@ == "None"@,
            },
    {
        match token {
            Some(t) => QUser::TOKEN(t),
            None => QUser::TOKEN("None".to_owned()),
        }
    }
}

/// How many of `votes` are `kind`.
pub open spec fn count_votes(votes: Seq<(String, String)>, kind: Seq<char>) -> nat
    decreases votes.len(),
{
    if votes.len() == 0 {
        0
    } else {
        count_votes(votes.drop_last(), kind) + if votes.last().1@ == kind {
            1nat
        } else {
            0nat
        }
    }
}

/// The votes' values, as text.
pub open spec fn vote_values(votes: Seq<(String, String)>) -> Seq<Seq<char>> {
    votes.map_values(|p: (String, String)| p.1@)
}

/// The counting of `kind` among `votes` is the count of `kind` in the
/// multiset of the votes' values.
pub proof fn lemma_count_votes_multiset(votes: Seq<(String, String)>, kind: Seq<char>)
    ensures
        count_votes(votes, kind) == vote_values(votes).to_multiset().count(kind),
    decreases votes.len(),
{
    broadcast use vstd::seq_lib::group_to_multiset_ensures;
    broadcast use vstd::multiset::group_multiset_axioms;

    if votes.len() == 0 {
        assert(vote_values(votes) =~= Seq::<Seq<char>>::empty());
    } else {
        let shorter = votes.drop_last();
        lemma_count_votes_multiset(shorter, kind);
        assert(vote_values(votes) =~= vote_values(shorter).push(votes.last().1@));
    }
}

/// The counting of votes does not depend on the order in which they are
/// walked: two lists of votes with the same values, counted with their
/// repetitions, give the same tallies.
pub proof fn lemma_count_votes_order_free(
    a: Seq<(String, String)>,
    b: Seq<(String, String)>,
    kind: Seq<char>,
)
    requires
        vote_values(a).to_multiset() == vote_values(b).to_multiset(),
    ensures
        count_votes(a, kind) == count_votes(b, kind),
{
    lemma_count_votes_multiset(a, kind);
    lemma_count_votes_multiset(b, kind);
}

/// The user's counters fit one more vote of each of their votes.
pub open spec fn tally_fits(user: User) -> bool {
    match user.votes {
        Some(v) => {
            &&& user.upvotes + count_votes(v@, "upvote"@) <= u32::MAX
            &&& user.downvotes + count_votes(v@, "downvote"@) <= u32::MAX
        },
        None => true,
    }
}

/// The user with one more upvote for each of the user's votes that is
/// `upvote`, and one more downvote for each that is `downvote`; the others
/// count for nothing.
pub fn tally_votes(user: User) -> (r: User)
    requires
        user.wf(),
        tally_fits(user),
    ensures
        r == (User {
            upvotes: (user.upvotes + match user.votes {
                Some(v) => count_votes(v@, "upvote"@),
                None => 0,
            }) as u32,
            downvotes: (user.downvotes + match user.votes {
                Some(v) => count_votes(v@, "downvote"@),
                None => 0,
            }) as u32,
            ..user
        }),
        r.wf(),
{
    let mut up = user.upvotes;
    let mut down = user.downvotes;
    match &user.votes {
        Some(votes) => {
            let n = votes.len();
            let mut i: usize = 0;
            while i < n
                invariant
                    n == votes@.len(),
                    i <= n,
                    up == user.upvotes + count_votes(votes@.take(i as int), "upvote"@),
                    down == user.downvotes + count_votes(votes@.take(i as int), "downvote"@),
                    user.upvotes + count_votes(votes@, "upvote"@) <= u32::MAX,
                    user.downvotes + count_votes(votes@, "downvote"@) <= u32::MAX,
                decreases n - i,
            {
                proof {
                    assert(votes@.take(i + 1).drop_last() =~= votes@.take(i as int));
                    lemma_count_votes_prefix(votes@, (i + 1) as int, "upvote"@);
                    lemma_count_votes_prefix(votes@, (i + 1) as int, "downvote"@);
                    reveal_strlit("upvote");
                    reveal_strlit("downvote");
                    assert("upvote"@.len() != "downvote"@.len());
                }
                let value = votes[i].1.as_str();
                if crate::text::str_eq(value, "upvote") {
                    up = up + 1;
                } else if crate::text::str_eq(value, "downvote") {
                    down = down + 1;
                }
                i += 1;
            }
            assert(votes@.take(n as int) =~= votes@);
        },
        None => {},
    }
    User { upvotes: up, downvotes: down, ..user }
}

/// A prefix of a list of votes counts no more than the list.
pub proof fn lemma_count_votes_prefix(votes: Seq<(String, String)>, k: int, kind: Seq<char>)
    requires
        0 <= k <= votes.len(),
    ensures
        count_votes(votes.take(k), kind) <= count_votes(votes, kind),
    decreases votes.len() - k,
{
    if k < votes.len() {
        lemma_count_votes_prefix(votes, k + 1, kind);
        assert(votes.take(k + 1).drop_last() =~= votes.take(k));
    } else {
        assert(votes.take(k) =~= votes);
    }
}

/// The query that stores a new user, given as the JSON document `data`.
pub open spec fn insert_user_text() -> Seq<char> {
    "INSERT @data INTO users LET n = NEW RETURN n"@
}

/// The request that stores the user whose JSON document is `data`; in
/// batches of 1.
pub fn new_user_query(data: String) -> (r: AqlRequest)
    ensures
        r@ == (AqlView {
            query: insert_user_text(),
            bind_vars: seq![("data"@, BindValueView::Json(data@))],
            batch_size: Some(1),
        }),
{
    let ghost d = data@;
    let r = AqlRequest::new("INSERT @data INTO users LET n = NEW RETURN n").bind_var(
        "data",
        BindValue::Json(data),
    ).batch_size(1);
    assert(r@.bind_vars =~= seq![("data"@, BindValueView::Json(d))]);
    r
}

/// The query that lists a user's ideas, newest first.
pub open spec fn user_ideas_text() -> Seq<char> {
    "FOR i in 1..1 INBOUND CONCAT('users/', @id ) idea_owner\n\t\tSORT i.date DESC\n        RETURN i"@
}

/// The request that lists the ideas of the user with key `id`; in batches
/// of 25.
pub fn user_ideas_query(id: String) -> (r: AqlRequest)
    ensures
        r@ == (AqlView {
            query: user_ideas_text(),
            bind_vars: seq![("id"@, BindValueView::Text(id@))],
            batch_size: Some(25),
        }),
{
    let ghost d = id@;
    let r = AqlRequest::new(
        "FOR i in 1..1 INBOUND CONCAT('users/', @id ) idea_owner\n\t\tSORT i.date DESC\n        RETURN i",
    ).bind_var("id", BindValue::Text(id)).batch_size(25);
    assert(r@.bind_vars =~= seq![("id"@, BindValueView::Text(d))]);
    r
}

} // verus!

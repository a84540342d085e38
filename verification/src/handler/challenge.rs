//! The AQL queries for logging in: finding the user of an email address and
//! storing a challenge.

use vstd::prelude::*;
use crate::aql::{AqlRequest, AqlView, BindValue, BindValueView};
use crate::models::challenge::Login;

verus! {

/// The query that tells, for each user with an email address, that it is a
/// document.
pub open spec fn login_text() -> Seq<char> {
    "for u in users\n\t\tfilter u.email == @email\n\t\treturn IS_DOCUMENT(u)\n\t\t\t"@
}

impl Login {
    /// The request that looks up the users with this email address; in
    /// batches of 1.
    pub fn aql(&self) -> (r: AqlRequest)
        ensures
            r@ == (AqlView {
                query: login_text(),
                bind_vars: seq![("email"@, BindValueView::Text(self.email@))],
                batch_size: Some(1),
            }),
    {
        let r = AqlRequest::new("for u in users\n\t\tfilter u.email == @email\n\t\treturn IS_DOCUMENT(u)\n\t\t\t").bind_var(
            "email",
            BindValue::Text(self.email.clone()),
        ).batch_size(1);
        assert(r@.bind_vars =~= seq![("email"@, BindValueView::Text(self.email@))]);
        r
    }
}

/// Whether the answer to a [`Login`] lookup shows a user: it has a row.
pub fn user_exists(rows: &Vec<bool>) -> (r: bool)
    ensures
        r == (rows@.len() > 0),
{
    rows.len() > 0
}

/// A query that answers `true` once for each stored user whose attribute
/// `attr` equals the bound `@email`.
pub open spec fn user_filter_text(attr: Seq<char>) -> Seq<char> {
    "for u in users\n\t\tfilter u."@ + attr + " == @email\n\t\treturn IS_DOCUMENT(u)\n\t\t\t"@
}

/// Whether one of the stored users `users` (each a document, from
/// attribute to value) has the attribute `attr` with the value `value`:
/// whether the query of [`user_filter_text`] for `attr` answers a row.
pub open spec fn some_user_has(users: Seq<Map<Seq<char>, Seq<char>>>, attr: Seq<char>, value: Seq<char>) -> bool {
    exists|i: int| 0 <= i < users.len() && #[trigger] users[i].contains_key(attr) && users[i][attr] == value
}

/// The log-in lookup filters on the email address: it answers a row, so
/// that [`user_exists`] holds, exactly where a stored user's `email` is the
/// bound address, whatever else the users hold.
pub proof fn lemma_login_lookup_matches_email()
    ensures
        exists|attr: Seq<char>|
            login_text() == #[trigger] user_filter_text(attr) && forall|
                users: Seq<Map<Seq<char>, Seq<char>>>,
                value: Seq<char>,
            |
                #[trigger] some_user_has(users, attr, value) == (exists|i: int|
                    0 <= i < users.len() && users[i].contains_key("email"@) && users[i]["email"@]
                        == value),
{
    reveal_strlit("for u in users\n\t\tfilter u.email == @email\n\t\treturn IS_DOCUMENT(u)\n\t\t\t");
    reveal_strlit("for u in users\n\t\tfilter u.");
    reveal_strlit(" == @email\n\t\treturn IS_DOCUMENT(u)\n\t\t\t");
    reveal_strlit("email");
    assert(login_text() =~= user_filter_text("email"@));
}

/// The query that stores the challenge whose JSON document is `data`.
pub open spec fn insert_challenge_text(data: Seq<char>) -> Seq<char> {
    "INSERT "@ + data + " INTO challenges LET n = NEW RETURN n"@
}

/// The request that stores the challenge whose JSON document is `data`; in
/// batches of 1.
pub fn challenge_insert_query(data: &str) -> (r: AqlRequest)
    ensures
        r@ == (AqlView {
            query: insert_challenge_text(data@),
            bind_vars: Seq::empty(),
            batch_size: Some(1),
        }),
{
    let mut q = "INSERT ".to_owned();
    q.append(data);
    q.append(" INTO challenges LET n = NEW RETURN n");
    AqlRequest::from_text(q).batch_size(1)
}

} // verus!

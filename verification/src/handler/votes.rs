//! Casting a vote on an idea, and bringing the idea's vote counters in line
//! with what the database reports of the vote.

use vstd::prelude::*;
use crate::aql::{AqlRequest, AqlView, BindValue, BindValueView};
use crate::models::ideas::{CastVote, VoteStatus};

verus! {

/// Which counter a vote goes to.
#[derive(Debug, Clone, Copy, PartialEq, Eq, Structural)]
pub enum VoteKind {
    Up,
    Down,
}

/// A change of an idea's counters: one more vote of `kind`, and `sub` fewer
/// of the other kind.
#[derive(Debug, Clone)]
pub struct VoteUpdate {
    /// The idea's `_id`.
    pub idea_id: String,
    pub kind: VoteKind,
    pub sub: i64,
}

/// Whether the voter's vote changed.
pub open spec fn vote_changed(s: VoteStatus) -> bool {
    s.prev.deep_view() != s.new.deep_view()
}

/// The vote a status reports as new is one the service knows, wherever the
/// vote changed.
pub open spec fn vote_status_known(s: VoteStatus) -> bool {
    vote_changed(s) && s.new is Some ==> (s.new.unwrap()@ == "upvote"@ || s.new.unwrap()@
        == "downvote"@)
}

/// The change of counters that a reported vote calls for: none where the
/// vote did not change or has been taken back; else one more vote of the new
/// kind, and one fewer of the other kind where the voter had voted before.
pub open spec fn planned_vote(s: VoteStatus) -> Option<(VoteKind, int)> {
    if !vote_changed(s) {
        None
    } else {
        match s.new {
            None => None,
            Some(v) => Some(
                (
                    if v@ == "upvote"@ {
                        VoteKind::Up
                    } else {
                        VoteKind::Down
                    },
                    if s.prev is None {
                        0int
                    } else {
                        1int
                    },
                ),
            ),
        }
    }
}

impl VoteStatus {
    /// Whether the vote before and the vote after differ.
    pub fn has_changed(&self) -> (r: bool)
        ensures
            r == vote_changed(*self),
    {
        match (&self.prev, &self.new) {
            (Some(a), Some(b)) => !(*a == *b),
            (None, None) => false,
            _ => true,
        }
    }
}

/// The change of the idea's counters that `answer` calls for (see
/// [`planned_vote`]).
pub fn plan_vote(answer: &VoteStatus) -> (r: Option<VoteUpdate>)
    requires
        vote_status_known(*answer),
    ensures
        match (r, planned_vote(*answer)) {
            (None, None) => true,
            (Some(u), Some((kind, sub))) => u.kind == kind && u.sub == sub && u.idea_id@
                == answer.idea_id@,
            _ => false,
        },
{
    if !answer.has_changed() {
        return None;
    }
    match &answer.new {
        None => None,
        Some(v) => {
            let kind = if crate::text::str_eq(v.as_str(), "upvote") {
                VoteKind::Up
            } else {
                VoteKind::Down
            };
            let sub: i64 = if answer.prev.is_none() {
                0
            } else {
                1
            };
            Some(VoteUpdate { idea_id: answer.idea_id.clone(), kind, sub })
        },
    }
}

/// The query that records `vote`: it records the voter's vote on the idea
/// and reports it before and after.
pub open spec fn cast_vote_text() -> Seq<char> {
    "LET user = FIRST (for u in 1..1 OUTBOUND DOCUMENT('bearer_tokens', @token) bearer_to_user RETURN u)\n                LET idea_id = DOCUMENT('ideas', @id)._id\n                UPSERT { _from: idea_id , _to: user._id }\n                INSERT { _from: idea_id , _to: user._id, vote: @vote }\n                UPDATE { vote: @vote } IN idea_voter LET prev = OLD LET new = NEW\n                RETURN {idea_id ,prev: OLD.vote, new: NEW.vote}"@
}

/// The request that records `msg`; in batches of 1.
pub fn cast_vote_query(msg: &CastVote) -> (r: AqlRequest)
    ensures
        r@ == (AqlView {
            query: cast_vote_text(),
            bind_vars: seq![
                ("vote"@, BindValueView::Text(msg.vote@)),
                ("token"@, BindValueView::Text(msg.u_token@)),
                ("id"@, BindValueView::Text(msg.idea_id@)),
            ],
            batch_size: Some(1),
        }),
{
    let r = AqlRequest::new(
        "LET user = FIRST (for u in 1..1 OUTBOUND DOCUMENT('bearer_tokens', @token) bearer_to_user RETURN u)\n                LET idea_id = DOCUMENT('ideas', @id)._id\n                UPSERT { _from: idea_id , _to: user._id }\n                INSERT { _from: idea_id , _to: user._id, vote: @vote }\n                UPDATE { vote: @vote } IN idea_voter LET prev = OLD LET new = NEW\n                RETURN {idea_id ,prev: OLD.vote, new: NEW.vote}",
    ).batch_size(1).bind_var("vote", BindValue::Text(msg.vote.clone())).bind_var(
        "token",
        BindValue::Text(msg.u_token.clone()),
    ).bind_var("id", BindValue::Text(msg.idea_id.clone()));
    assert(r@.bind_vars =~= seq![
        ("vote"@, BindValueView::Text(msg.vote@)),
        ("token"@, BindValueView::Text(msg.u_token@)),
        ("id"@, BindValueView::Text(msg.idea_id@)),
    ]);
    r
}

/// The query that applies a change of counters of `kind`.
pub open spec fn vote_update_text(kind: VoteKind) -> Seq<char> {
    match kind {
        VoteKind::Up => "LET doc = DOCUMENT(@idea_id)\n                            UPDATE doc with {upvotes: doc.upvotes + 1, downvotes : doc.downvotes - @sub } in ideas RETURN NEW\n                            "@,
        VoteKind::Down => "LET doc = DOCUMENT(@idea_id)\n                            UPDATE doc with {upvotes: doc.upvotes - @sub, downvotes : doc.downvotes + 1 } in ideas RETURN NEW\n                            "@,
    }
}

/// The request that applies `update` to the idea's counters; in batches of
/// 1.
pub fn vote_update_query(update: &VoteUpdate) -> (r: AqlRequest)
    ensures
        r@ == (AqlView {
            query: vote_update_text(update.kind),
            bind_vars: seq![
                ("sub"@, BindValueView::Number(update.sub as int)),
                ("idea_id"@, BindValueView::Text(update.idea_id@)),
            ],
            batch_size: Some(1),
        }),
{
    let text = match update.kind {
        VoteKind::Up => "LET doc = DOCUMENT(@idea_id)\n                            UPDATE doc with {upvotes: doc.upvotes + 1, downvotes : doc.downvotes - @sub } in ideas RETURN NEW\n                            ",
        VoteKind::Down => "LET doc = DOCUMENT(@idea_id)\n                            UPDATE doc with {upvotes: doc.upvotes - @sub, downvotes : doc.downvotes + 1 } in ideas RETURN NEW\n                            ",
    };
    let r = AqlRequest::new(text).batch_size(1).bind_var("sub", BindValue::Number(update.sub)).bind_var(
        "idea_id",
        BindValue::Text(update.idea_id.clone()),
    );
    assert(r@.bind_vars =~= seq![
        ("sub"@, BindValueView::Number(update.sub as int)),
        ("idea_id"@, BindValueView::Text(update.idea_id@)),
    ]);
    r
}

/// An idea's counters after the change `planned`, if any.
pub open spec fn counters_after(planned: Option<(VoteKind, int)>, up: int, down: int) -> (int, int) {
    match planned {
        None => (up, down),
        Some((VoteKind::Up, sub)) => (up + 1, down - sub),
        Some((VoteKind::Down, sub)) => (up - sub, down + 1),
    }
}

/// One where the vote `v` is `kind`, zero otherwise.
pub open spec fn vote_count(v: Option<String>, kind: Seq<char>) -> int {
    match v {
        Some(s) => if s@ == kind {
            1int
        } else {
            0int
        },
        None => 0int,
    }
}

/// Each voter counts once: where a voter's vote (none, `upvote` or
/// `downvote`) becomes a vote the service knows, the idea's counters after
/// the change take the voter's previous vote back and count the new one.
pub proof fn lemma_vote_update_moves_one_vote(s: VoteStatus, up: int, down: int)
    requires
        s.new is Some,
        s.new.unwrap()@ == "upvote"@ || s.new.unwrap()@ == "downvote"@,
        s.prev is Some ==> (s.prev.unwrap()@ == "upvote"@ || s.prev.unwrap()@ == "downvote"@),
    ensures
        counters_after(planned_vote(s), up, down) == (
            up + vote_count(s.new, "upvote"@) - vote_count(s.prev, "upvote"@),
            down + vote_count(s.new, "downvote"@) - vote_count(s.prev, "downvote"@),
        ),
{
    reveal_strlit("upvote");
    reveal_strlit("downvote");
    assert("upvote"@.len() != "downvote"@.len());
    if s.prev is Some {
        if s.prev.unwrap()@ == s.new.unwrap()@ {
            assert(s.prev.deep_view() == s.new.deep_view());
        } else {
            assert(s.prev.deep_view() != s.new.deep_view());
        }
    }
}

/// How many of the votes `votes` (one for each voter, none where the voter
/// has not voted) are `kind`.
pub open spec fn tally(votes: Seq<Option<String>>, kind: Seq<char>) -> int
    decreases votes.len(),
{
    if votes.len() == 0 {
        0
    } else {
        tally(votes.drop_last(), kind) + vote_count(votes.last(), kind)
    }
}

/// Changing one voter's vote changes a tally by that voter alone.
pub proof fn lemma_tally_update(votes: Seq<Option<String>>, i: int, v: Option<String>, kind: Seq<char>)
    requires
        0 <= i < votes.len(),
    ensures
        tally(votes.update(i, v), kind) == tally(votes, kind) - vote_count(votes[i], kind) + vote_count(v, kind),
    decreases votes.len(),
{
    if i == votes.len() - 1 {
        assert(votes.update(i, v).drop_last() =~= votes.drop_last());
    } else {
        lemma_tally_update(votes.drop_last(), i, v, kind);
        assert(votes.update(i, v).drop_last() =~= votes.drop_last().update(i, v));
    }
}

/// An idea's counters stay the tallies of its voters' votes: where its
/// counters are the numbers of `upvote` and `downvote` votes among `votes`,
/// and the voter at `i` changes its vote from `s.prev` to `s.new`, a vote
/// the service knows, the counters after the change planned for `s` are
/// the tallies of the votes after it.
pub proof fn lemma_counters_follow_votes(votes: Seq<Option<String>>, i: int, s: VoteStatus, up: int, down: int)
    requires
        0 <= i < votes.len(),
        votes[i] == s.prev,
        up == tally(votes, "upvote"@),
        down == tally(votes, "downvote"@),
        s.new is Some,
        s.new.unwrap()@ == "upvote"@ || s.new.unwrap()@ == "downvote"@,
        s.prev is Some ==> (s.prev.unwrap()@ == "upvote"@ || s.prev.unwrap()@ == "downvote"@),
    ensures
        counters_after(planned_vote(s), up, down) == (
            tally(votes.update(i, s.new), "upvote"@),
            tally(votes.update(i, s.new), "downvote"@),
        ),
{
    lemma_vote_update_moves_one_vote(s, up, down);
    lemma_tally_update(votes, i, s.new, "upvote"@);
    lemma_tally_update(votes, i, s.new, "downvote"@);
}

/// The value that the counter expression `doc.<counter>` followed by `op`
/// gives, where the counter holds `old` and `@sub` is bound to `sub`: `op`
/// is ` + ` or ` - ` and then `1` or `@sub`; none for any other text.
pub open spec fn counter_op_value(op: Seq<char>, old: int, sub: int) -> Option<int> {
    if op.len() >= 4 && op[0] == ' ' && op[2] == ' ' && (op[1] == '+' || op[1] == '-') {
        let amount: Option<int> = if op.subrange(3, op.len() as int) == "1"@ {
            Some(1)
        } else if op.subrange(3, op.len() as int) == "@sub"@ {
            Some(sub)
        } else {
            None
        };
        match amount {
            Some(a) => Some(if op[1] == '+' { old + a } else { old - a }),
            None => None,
        }
    } else {
        None
    }
}

/// A query that sets an idea's two counters, each to its old value changed
/// by an operation: `up_op` on `upvotes`, `down_op` on `downvotes`.
pub open spec fn counter_update_text(up_op: Seq<char>, down_op: Seq<char>) -> Seq<char> {
    "LET doc = DOCUMENT(@idea_id)\n                            UPDATE doc with {upvotes: doc.upvotes"@ + up_op
        + ", downvotes : doc.downvotes"@ + down_op + " } in ideas RETURN NEW\n                            "@
}

/// The counter update for `kind` does what the planned change says: it sets
/// the idea's counters, holding `up` and `down`, with `@sub` bound to `sub`,
/// to [`counters_after`] the change of `kind` taking back `sub`.
pub proof fn lemma_vote_update_sets_counters(kind: VoteKind, up: int, down: int, sub: int)
    ensures
        exists|up_op: Seq<char>, down_op: Seq<char>|
            vote_update_text(kind) == #[trigger] counter_update_text(up_op, down_op)
            && counter_op_value(up_op, up, sub) == Some(counters_after(Some((kind, sub)), up, down).0)
            && counter_op_value(down_op, down, sub) == Some(counters_after(Some((kind, sub)), up, down).1),
{
    reveal_strlit("LET doc = DOCUMENT(@idea_id)\n                            UPDATE doc with {upvotes: doc.upvotes");
    reveal_strlit(", downvotes : doc.downvotes");
    reveal_strlit(" } in ideas RETURN NEW\n                            ");
    reveal_strlit(" + 1");
    reveal_strlit(" - @sub");
    reveal_strlit("1");
    reveal_strlit("@sub");
    let plus_one = " + 1"@;
    let minus_sub = " - @sub"@;
    assert(plus_one.subrange(3, 4) =~= "1"@);
    assert(minus_sub.subrange(3, 7) =~= "@sub"@);
    assert(counter_op_value(plus_one, up, sub) == Some(up + 1));
    assert(counter_op_value(plus_one, down, sub) == Some(down + 1));
    assert(counter_op_value(minus_sub, up, sub) == Some(up - sub));
    assert(counter_op_value(minus_sub, down, sub) == Some(down - sub));
    match kind {
        VoteKind::Up => {
            reveal_strlit("LET doc = DOCUMENT(@idea_id)\n                            UPDATE doc with {upvotes: doc.upvotes + 1, downvotes : doc.downvotes - @sub } in ideas RETURN NEW\n                            ");
            assert(vote_update_text(kind) =~= counter_update_text(plus_one, minus_sub));
        },
        VoteKind::Down => {
            reveal_strlit("LET doc = DOCUMENT(@idea_id)\n                            UPDATE doc with {upvotes: doc.upvotes - @sub, downvotes : doc.downvotes + 1 } in ideas RETURN NEW\n                            ");
            assert(vote_update_text(kind) =~= counter_update_text(minus_sub, plus_one));
        },
    }
}

} // verus!

use ideadog::aql::BindValue;
use ideadog::handler::users::{new_user_query, tally_votes, user_ideas_query};
use ideadog::handler::votes::{cast_vote_query, plan_vote, vote_update_query, VoteKind};
use ideadog::models::ideas::{CastVote, VoteStatus};
use ideadog::models::users::{QUser, QueryUser, User};

fn status(prev: Option<&str>, new: Option<&str>) -> VoteStatus {
    VoteStatus {
        idea_id: "ideas/1".to_string(),
        prev: prev.map(|s| s.to_string()),
        new: new.map(|s| s.to_string()),
    }
}

fn user(votes: Option<Vec<(&str, &str)>>) -> User {
    User {
        key: "1".to_string(),
        id: "users/1".to_string(),
        username: "ann".to_string(),
        email: "ann@example.com".to_string(),
        ideas: vec![],
        active: true,
        favorite: String::new(),
        upvotes: 2,
        downvotes: 1,
        votes: votes.map(|v| v.into_iter().map(|(k, x)| (k.to_string(), x.to_string())).collect()),
        created_at: 0,
    }
}

#[test]
fn has_changed_compares_before_and_after() {
    assert!(!status(None, None).has_changed());
    assert!(status(None, Some("upvote")).has_changed());
    assert!(!status(Some("upvote"), Some("upvote")).has_changed());
    assert!(status(Some("upvote"), Some("downvote")).has_changed());
    assert!(status(Some("upvote"), None).has_changed());
}

#[test]
fn first_upvote_subtracts_nothing() {
    let u = plan_vote(&status(None, Some("upvote"))).unwrap();
    assert_eq!(u.kind, VoteKind::Up);
    assert_eq!(u.sub, 0);
    assert_eq!(u.idea_id, "ideas/1");
}

#[test]
fn switched_vote_subtracts_one() {
    let u = plan_vote(&status(Some("upvote"), Some("downvote"))).unwrap();
    assert_eq!(u.kind, VoteKind::Down);
    assert_eq!(u.sub, 1);
}

#[test]
fn repeated_vote_changes_nothing() {
    assert!(plan_vote(&status(Some("downvote"), Some("downvote"))).is_none());
    assert!(plan_vote(&status(Some("downvote"), None)).is_none());
}

#[test]
fn vote_update_query_binds_sub_and_idea() {
    let u = plan_vote(&status(Some("downvote"), Some("upvote"))).unwrap();
    let r = vote_update_query(&u);
    assert!(r.query.contains("upvotes: doc.upvotes + 1, downvotes : doc.downvotes - @sub"));
    assert_eq!(r.bind_vars[0].0, "sub");
    assert!(matches!(r.bind_vars[0].1, BindValue::Number(1)));
    assert_eq!(r.bind_vars[1].0, "idea_id");
    assert_eq!(r.batch_size, Some(1));
}

#[test]
fn cast_vote_query_binds_vote_token_id() {
    let v = CastVote { idea_id: "3".to_string(), u_token: "t".to_string(), vote: "upvote".to_string() };
    let r = cast_vote_query(&v);
    let names: Vec<&str> = r.bind_vars.iter().map(|(n, _)| n.as_str()).collect();
    assert_eq!(names, vec!["vote", "token", "id"]);
    assert!(r.query.starts_with("LET user = FIRST"));
}

#[test]
fn tally_counts_each_kind() {
    let u = tally_votes(user(Some(vec![("a", "upvote"), ("b", "downvote"), ("c", "upvote"), ("d", "meh")])));
    assert_eq!(u.upvotes, 4);
    assert_eq!(u.downvotes, 2);
    assert_eq!(u.username, "ann");
}

#[test]
fn tally_in_another_order_gives_the_same() {
    let a = tally_votes(user(Some(vec![("a", "upvote"), ("b", "downvote")])));
    let b = tally_votes(user(Some(vec![("b", "downvote"), ("a", "upvote")])));
    assert_eq!((a.upvotes, a.downvotes), (b.upvotes, b.downvotes));
}

#[test]
fn tally_without_votes_keeps_counters() {
    let u = tally_votes(user(None));
    assert_eq!((u.upvotes, u.downvotes), (2, 1));
}

#[test]
fn user_queries() {
    let r = QUser::ID("5".to_string()).aql();
    assert_eq!(r.query, "RETURN DOCUMENT('users', @ele)");
    let t = QUser::TOKEN("tk".to_string()).aql();
    assert!(t.query.contains("OUTBOUND DOCUMENT('bearer_tokens', @ele)"));
    let none = QueryUser { token: None, id: None }.aql();
    assert_eq!(none.query, "");
    assert_eq!(none.batch_size, None);
    match QUser::from_token(None) {
        QUser::TOKEN(s) => assert_eq!(s, "None"),
        QUser::ID(_) => panic!("expected a token"),
    }
}

#[test]
fn insert_user_binds_json() {
    let r = new_user_query("{\"username\":\"ann\"}".to_string());
    assert_eq!(r.query, "INSERT @data INTO users LET n = NEW RETURN n");
    assert!(matches!(&r.bind_vars[0].1, BindValue::Json(s) if s == "{\"username\":\"ann\"}"));
}

#[test]
fn user_ideas_batches_of_25() {
    let r = user_ideas_query("8".to_string());
    assert_eq!(r.batch_size, Some(25));
    assert_eq!(r.bind_vars[0].0, "id");
}

use ideadog::auth::{login_actions, millis_from_clock, now_millis, signup_actions, ttl_after, AccountAction};
use ideadog::connect::count_or_default;
use ideadog::text::parse_usize;
use ideadog::auth::{
    bearer_query, challenge_gen, consume_challenge_query, token_from_header, ttl, ttl_at,
    verify_token, verify_token_query, AuthMiddleware, AuthStep,
};
use ideadog::connect::{after_failed_attempt, bind_address, connection_timeout_secs, ConnectStep};
use ideadog::error::ServiceError;
use ideadog::handler::challenge::{challenge_insert_query, user_exists};
use ideadog::handler::ideas::DeleteIdea;
use ideadog::models::challenge::{Challenge, Login, Signup};
use ideadog::models::ideas::{CastVote, NewIdea, Pagination, QueryIdea, Sort};
use ideadog::models::tags::QueryTag;
use ideadog::models::users::NewUser;
use ideadog::params::{
    deletion_outcome, paginate, query_from_params, sort_from_path, split_tags, vote_outcome, IdeaRejection,
    Param,
};
use ideadog::aql::BindValue;

#[test]
fn paginate_needs_both() {
    assert_eq!(paginate(Some(3), Some(4)), Some(Pagination { count: 4, offset: 3 }));
    assert_eq!(paginate(None, Some(4)), None);
    assert_eq!(paginate(Some(3), None), None);
}

#[test]
fn sort_from_path_any_case() {
    assert_eq!(sort_from_path("bright"), Sort::BRIGHT);
    assert_eq!(sort_from_path("BrIgHt"), Sort::BRIGHT);
    assert_eq!(sort_from_path("all"), Sort::ALL);
    assert_eq!(sort_from_path("brightest"), Sort::ALL);
    assert_eq!(sort_from_path("ALL"), Sort::ALL);
    assert_eq!(sort_from_path("BRIGHT"), Sort::BRIGHT);
}

#[test]
fn split_tags_keeps_empty_pieces() {
    assert_eq!(split_tags("a,b"), vec!["a".to_string(), "b".to_string()]);
    assert_eq!(split_tags(""), vec!["".to_string()]);
    assert_eq!(split_tags("a,,b,"), vec!["a", "", "b", ""]);
    assert_eq!(split_tags("a,b").join(","), "a,b");
}

#[test]
fn params_make_query() {
    let p = Param {
        id: None,
        tags: Some("x,y".to_string()),
        count: Some(5),
        offset: Some(10),
        q: Some(String::new()),
    };
    let q = query_from_params(&p, Sort::BRIGHT);
    assert_eq!(q.sort, Sort::BRIGHT);
    assert_eq!(q.pagination, Some(Pagination { count: 5, offset: 10 }));
    assert!(q.query.is_none());
    assert_eq!(q.tags, Some(vec!["x".to_string(), "y".to_string()]));
    let p2 = Param { id: None, tags: None, count: None, offset: Some(1), q: Some("sun".to_string()) };
    let q2 = query_from_params(&p2, Sort::ALL);
    assert_eq!(q2.query, Some("sun".to_string()));
    assert!(q2.pagination.is_none());
    assert!(q2.tags.is_none());
}

#[test]
fn by_id_asks_for_one() {
    let q = QueryIdea::by_id("3".to_string());
    assert_eq!(q.id, Some("3".to_string()));
}

#[test]
fn new_idea_text_limit_in_bytes() {
    let ok = NewIdea::checked("a".repeat(140), "1".to_string(), vec![]);
    assert!(ok.is_ok());
    let long = NewIdea::checked("a".repeat(141), "1".to_string(), vec![]);
    assert_eq!(long.unwrap_err(), IdeaRejection::TextTooLong);
    // 70 two-byte characters take 140 bytes; 71 take 142.
    assert!(NewIdea::checked("é".repeat(70), "1".to_string(), vec![]).is_ok());
    assert!(NewIdea::checked("é".repeat(71), "1".to_string(), vec![]).is_err());
    assert_eq!(IdeaRejection::TextTooLong.status_code(), 422);
    assert_eq!(IdeaRejection::TextTooLong.reason(), "Text length supplied is greater than allowed.");
}

#[test]
fn cast_vote_request_checks() {
    let bad = CastVote::from_request("1".to_string(), "sidevote".to_string(), Some("t".to_string()));
    assert_eq!(bad.unwrap_err(), ServiceError::NotFound);
    let no_token = CastVote::from_request("1".to_string(), "upvote".to_string(), None);
    assert_eq!(no_token.unwrap_err(), ServiceError::BadRequest);
    let ok = CastVote::from_request("1".to_string(), "downvote".to_string(), Some("t".to_string())).unwrap();
    assert_eq!(ok.u_token, "t");
    assert_eq!(vote_outcome(true), Ok(()));
    assert_eq!(vote_outcome(false), Err(ServiceError::NotFound));
}

#[test]
fn delete_needs_token() {
    assert_eq!(DeleteIdea::from_request("1".to_string(), None).unwrap_err(), ServiceError::BadRequest);
    let d = DeleteIdea::from_request("1".to_string(), Some("t".to_string())).unwrap();
    assert_eq!((d.token.as_str(), d.idea_id.as_str()), ("t", "1"));
}

#[test]
fn signup_makes_inactive_user() {
    let form = Signup { email: "a@b.c".to_string(), username: "ann".to_string() };
    let u = NewUser::signup(&form, 99);
    assert_eq!(u.email, "a@b.c");
    assert_eq!(u.created_at, 99);
    assert!(!u.active);
    let d = NewUser::default();
    assert_eq!(d.username, "");
}

#[test]
fn service_errors() {
    assert_eq!(ServiceError::Unauthorised.status_code(), 401);
    assert_eq!(ServiceError::BadRequest.status_code(), 400);
    assert_eq!(ServiceError::NotFound.status_code(), 404);
    assert_eq!(ServiceError::BadRequest.response_body(), "Bad_Request");
    assert_eq!(ServiceError::BadRequest.description(), "Bad Request");
    assert_eq!(ServiceError::NotFound.response_body(), "Not Found");
}

#[test]
fn token_from_header_takes_last_word() {
    assert_eq!(token_from_header("Bearer abc123"), "abc123");
    assert_eq!(token_from_header("abc"), "abc");
    assert_eq!(token_from_header("Bearer "), "");
    assert_eq!(token_from_header("a b c"), "c");
}

#[test]
fn middleware_steps() {
    let m = AuthMiddleware;
    assert!(matches!(m.start("OPTIONS", false, None), AuthStep::Done));
    assert!(matches!(m.start("GET", false, Some("t".to_string())), AuthStep::Reject(ServiceError::Unauthorised)));
    assert!(matches!(m.start("GET", true, None), AuthStep::Reject(ServiceError::Unauthorised)));
    match m.start("POST", true, Some("tok".to_string())) {
        AuthStep::Verify(t) => assert_eq!(t, "tok"),
        _ => panic!("expected a check of the token"),
    }
    assert_eq!(verify_token(true), Ok(()));
    assert_eq!(verify_token(false), Err(ServiceError::Unauthorised));
    let r = verify_token_query("tok".to_string());
    assert_eq!(r.query, "RETURN IS_DOCUMENT(DOCUMENT('bearer_tokens', @tok))");
}

#[test]
fn ttl_arithmetic() {
    assert_eq!(ttl_at(15, 1_000), 901_000);
    assert_eq!(ttl_at(-1, 60_000), 0);
    let t = ttl(15).unwrap();
    assert!(t > 900_000);
    assert!(ttl(i64::MAX).is_none());
}

#[test]
fn challenge_tokens_have_expected_length() {
    let t = challenge_gen(32).unwrap();
    assert_eq!(t.len(), 44);
    assert!(t.chars().all(|c| c.is_ascii_alphanumeric() || c == '-' || c == '_' || c == '='));
    assert_eq!(challenge_gen(64).unwrap().len(), 88);
    assert_ne!(challenge_gen(32).unwrap(), challenge_gen(32).unwrap());
}

#[test]
fn challenge_flow() {
    let c = Challenge::pending_for("tok".to_string(), "a@b.c".to_string(), 100);
    assert_eq!(c._id, "challenges/tok");
    assert!(c.is_valid_at(99));
    assert!(!c.is_valid_at(100));
    let r = bearer_query(Some(c.clone()), 50, "{}".to_string()).unwrap();
    assert!(r.query.contains("INSERT @data INTO bearer_tokens"));
    assert_eq!(r.bind_vars[0].0, "email");
    assert!(matches!(&r.bind_vars[1].1, BindValue::Json(s) if s == "{}"));
    assert!(bearer_query(Some(c.clone()), 150, "{}".to_string()).is_none());
    let used = Challenge { pending: false, ..c.clone() };
    assert!(bearer_query(Some(used), 0, "{}".to_string()).is_none());
    assert!(bearer_query(None, 0, "{}".to_string()).is_none());
    let consume = consume_challenge_query("tok".to_string());
    assert!(consume.query.starts_with("FOR c IN challenges FILTER c._key == @challenge"));
}

#[test]
fn login_lookup() {
    let r = Login { email: "a@b.c".to_string() }.aql();
    assert!(matches!(&r.bind_vars[0].1, BindValue::Text(s) if s == "a@b.c"));
    assert!(user_exists(&vec![true]));
    assert!(!user_exists(&vec![]));
    assert_eq!(
        challenge_insert_query("{\"_key\":\"x\"}").query,
        "INSERT {\"_key\":\"x\"} INTO challenges LET n = NEW RETURN n"
    );
}

#[test]
fn tag_queries() {
    assert_eq!(QueryTag::all().aql().query, "FOR tag IN tags RETURN tag");
    let one = QueryTag::one("rust".to_string()).aql();
    assert_eq!(one.query, "RETURN DOCUMENT(CONCAT('tags/', @key))");
    assert!(matches!(&one.bind_vars[0].1, BindValue::Text(s) if s == "rust"));
    let assoc = QueryTag::associations("a,b").aql();
    assert_eq!(assoc.batch_size, Some(50));
    assert!(matches!(&assoc.bind_vars[0].1, BindValue::TextList(v) if v == &vec!["a".to_string(), "b".to_string()]));
}

#[test]
fn connection_retries() {
    assert_eq!(connection_timeout_secs(15, 5), 3);
    let mut tries_made = 0;
    let mut conn_tries: u8 = 0;
    loop {
        tries_made += 1;
        match after_failed_attempt(conn_tries, 5) {
            ConnectStep::Retry(n) => conn_tries = n,
            ConnectStep::GiveUp => break,
        }
    }
    assert_eq!(tries_made, 5);
    assert_eq!(after_failed_attempt(4, 5), ConnectStep::GiveUp);
    assert_eq!(after_failed_attempt(0, 1), ConnectStep::GiveUp);
    assert_eq!(after_failed_attempt(254, 255), ConnectStep::GiveUp);
    assert_eq!(after_failed_attempt(3, 5), ConnectStep::Retry(4));
    assert_eq!(bind_address(None, None), "localhost:5000");
    assert_eq!(bind_address(Some("0.0.0.0".to_string()), Some("80".to_string())), "0.0.0.0:80");
}

#[test]
fn token_from_known_bytes() {
    assert_eq!(ideadog::auth::token_from_bytes(&[0xfb, 0xff, 0x00]), "-_8A");
    assert_eq!(ideadog::auth::token_from_bytes(&[0x61]), "YQ==");
    assert_eq!(ideadog::auth::token_from_bytes(&[]), "");
}

#[test]
fn parse_counts() {
    assert_eq!(parse_usize("42"), Some(42));
    assert_eq!(parse_usize("+7"), Some(7));
    assert_eq!(parse_usize("0"), Some(0));
    assert_eq!(parse_usize(""), None);
    assert_eq!(parse_usize("+"), None);
    assert_eq!(parse_usize("-3"), None);
    assert_eq!(parse_usize("4 "), None);
    assert_eq!(parse_usize("18446744073709551615"), Some(usize::MAX));
    assert_eq!(parse_usize("18446744073709551616"), None);
    assert_eq!(parse_usize("99999999999999999999x"), None);
    for t in ["12", "+0", "x", "", "007", "1_0", "++1", "١"] {
        assert_eq!(parse_usize(t), t.parse::<usize>().ok());
    }
    assert_eq!(count_or_default("8"), 8);
    assert_eq!(count_or_default("eight"), 1);
}

#[test]
fn clock_and_expiry() {
    assert!(now_millis().unwrap() > 1_600_000_000_000);
    assert_eq!(millis_from_clock(1, 2_500_000), Some(1_002));
    assert_eq!(millis_from_clock(0, 999_999_999), Some(999));
    assert_eq!(millis_from_clock(u64::MAX, 0), None);
    assert_eq!(millis_from_clock(i64::MAX as u64, 0), None);
    assert_eq!(ttl_after(1, 5), Some(60_005));
    assert_eq!(ttl_after(i64::MAX, 0), None);
    assert_eq!(ttl_after(-1, i64::MIN), None);
}

#[test]
fn outcomes_of_deletion() {
    assert_eq!(deletion_outcome(true), Ok(()));
    assert_eq!(deletion_outcome(false), Err(ServiceError::BadRequest));
}

#[test]
fn login_and_signup_actions() {
    let l = login_actions("a@b.c".to_string(), true);
    assert_eq!(l.len(), 1);
    assert!(matches!(&l[0], AccountAction::SendChallenge(e) if e == "a@b.c"));
    let r = login_actions("a@b.c".to_string(), false);
    assert_eq!(r.len(), 1);
    assert!(matches!(&r[0], AccountAction::Redirect));

    let form = Signup { email: "a@b.c".to_string(), username: "ann".to_string() };
    let existing = signup_actions(&form, true, 7);
    assert_eq!(existing.len(), 1);
    assert!(matches!(&existing[0], AccountAction::SendChallenge(e) if e == "a@b.c"));

    let fresh = signup_actions(&form, false, 7);
    assert_eq!(fresh.len(), 2);
    match &fresh[0] {
        AccountAction::StoreUser(u) => {
            assert_eq!(u.username, "ann");
            assert_eq!(u.email, "a@b.c");
            assert_eq!(u.created_at, 7);
            assert!(!u.active);
            assert!(u.ideas.is_empty());
        }
        other => panic!("expected a user to store, got {:?}", other),
    }
    assert!(matches!(&fresh[1], AccountAction::SendChallenge(e) if e == "a@b.c"));
}

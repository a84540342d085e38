//! Authentication: one-time challenges and bearer tokens, their expiry, the
//! reading of the token a request carries and the check made before a
//! protected route.

use vstd::prelude::*;
use rand::RngCore;
use crate::aql::{AqlRequest, AqlView, BindValue, BindValueView};
use crate::error::ServiceError;
use crate::models::challenge::{Challenge, Signup};
use crate::models::users::NewUser;
use crate::text::{split_on, split_text};

verus! {

/// The token handed to a user who asks to log in.
#[derive(Debug, Clone)]
pub struct Token {
    pub token: String,
}

/// A bearer token, stored under its text, with its expiry in milliseconds
/// since the Unix epoch.
#[derive(Debug, Clone)]
pub struct Bearer {
    pub token: String,
    pub ttl: i64,
}

/// How many milliseconds a minute has.
pub const MILLIS_PER_MINUTE: i64 = 60000;

/// The character of the URL-safe Base64 alphabet for the six-bit value `v`:
/// `A`-`Z`, `a`-`z`, `0`-`9`, then `-` and `_`.
pub open spec fn url_safe_digit(v: int) -> char {
    if v < 26 {
        (65 + v) as char
    } else if v < 52 {
        (71 + v) as char
    } else if v < 62 {
        (v - 4) as char
    } else if v == 62 {
        '-'
    } else {
        '_'
    }
}

/// The URL-safe Base64 encoding, with padding, of `bytes`: each group of
/// three bytes becomes four characters, six bits each, most significant
/// first; a last group of one or two bytes is padded with zero bits and
/// `=` up to four characters.
pub open spec fn base64_url_safe(bytes: Seq<u8>) -> Seq<char>
    decreases bytes.len(),
{
    if bytes.len() == 0 {
        Seq::empty()
    } else if bytes.len() == 1 {
        let b0 = bytes[0] as int;
        seq![url_safe_digit(b0 / 4), url_safe_digit((b0 % 4) * 16), '=', '=']
    } else if bytes.len() == 2 {
        let b0 = bytes[0] as int;
        let b1 = bytes[1] as int;
        seq![
            url_safe_digit(b0 / 4),
            url_safe_digit((b0 % 4) * 16 + b1 / 16),
            url_safe_digit((b1 % 16) * 4),
            '=',
        ]
    } else {
        let b0 = bytes[0] as int;
        let b1 = bytes[1] as int;
        let b2 = bytes[2] as int;
        seq![
            url_safe_digit(b0 / 4),
            url_safe_digit((b0 % 4) * 16 + b1 / 16),
            url_safe_digit((b1 % 16) * 4 + b2 / 64),
            url_safe_digit(b2 % 64),
        ] + base64_url_safe(bytes.skip(3))
    }
}

/// Every value below 64 stands for a character of the URL-safe alphabet.
pub proof fn lemma_url_safe_digit(v: int)
    requires
        0 <= v < 64,
    ensures
        is_url_safe_char(url_safe_digit(v)),
{
}

/// The characters of the URL-safe Base64 alphabet, and its padding.
pub open spec fn is_url_safe_char(c: char) -> bool {
    ('A' <= c && c <= 'Z') || ('a' <= c && c <= 'z') || ('0' <= c && c <= '9') || c == '-' || c
        == '_' || c == '='
}

/// The encoding has four characters for every three bytes begun, each
/// from the URL-safe alphabet or `=`.
pub proof fn lemma_base64_shape(bytes: Seq<u8>)
    ensures
        base64_url_safe(bytes).len() == 4 * ((bytes.len() + 2) / 3),
        forall|i: int|
            0 <= i < base64_url_safe(bytes).len() ==> is_url_safe_char(
                #[trigger] base64_url_safe(bytes)[i],
            ),
    decreases bytes.len(),
{
    if bytes.len() >= 3 {
        let b0 = bytes[0] as int;
        let b1 = bytes[1] as int;
        let b2 = bytes[2] as int;
        lemma_base64_shape(bytes.skip(3));
        lemma_url_safe_digit(b0 / 4);
        lemma_url_safe_digit((b0 % 4) * 16 + b1 / 16);
        lemma_url_safe_digit((b1 % 16) * 4 + b2 / 64);
        lemma_url_safe_digit(b2 % 64);
        let head = seq![
            url_safe_digit(b0 / 4),
            url_safe_digit((b0 % 4) * 16 + b1 / 16),
            url_safe_digit((b1 % 16) * 4 + b2 / 64),
            url_safe_digit(b2 % 64),
        ];
        let rest = base64_url_safe(bytes.skip(3));
        assert(base64_url_safe(bytes) == head + rest);
        assert forall|i: int| 0 <= i < (head + rest).len() implies is_url_safe_char(#[trigger] (head + rest)[i]) by {
            if i >= 4 {
                assert((head + rest)[i] == rest[i - 4]);
            }
        }
    } else if bytes.len() == 2 {
        lemma_url_safe_digit(bytes[0] as int / 4);
        lemma_url_safe_digit((bytes[0] as int % 4) * 16 + bytes[1] as int / 16);
        lemma_url_safe_digit((bytes[1] as int % 16) * 4);
    } else if bytes.len() == 1 {
        lemma_url_safe_digit(bytes[0] as int / 4);
        lemma_url_safe_digit((bytes[0] as int % 4) * 16);
    }
}

/// Calls `base64::encode_config` with `base64::URL_SAFE` (the URL-safe
/// alphabet, with padding): the result is the encoding that
/// [`base64_url_safe`] states.
#[verifier::external_body]
fn encode_url_safe(bytes: &[u8]) -> (s: String)
    requires
        bytes@.len() <= usize::MAX / 2,
    ensures
        s@ == base64_url_safe(bytes@),
{
    base64::encode_config(bytes, base64::URL_SAFE)
}

/// Calls `try_fill_bytes` of `rand::rngs::OsRng` on `size` zero bytes: where
/// the operating system's random source answers, the result holds `size`
/// bytes; nothing is stated of their values.
#[verifier::external_body]
fn os_random_bytes(size: usize) -> (r: Option<Vec<u8>>)
    ensures
        r matches Some(v) ==> v@.len() == size,
{
    let mut buf: Vec<u8> = vec![0u8; size];
    match rand::rngs::OsRng.try_fill_bytes(&mut buf) {
        Ok(()) => Some(buf),
        Err(_) => None,
    }
}

/// The token made of the bytes `nonce`: their URL-safe base64 encoding.
pub fn token_from_bytes(nonce: &[u8]) -> (s: String)
    requires
        nonce@.len() <= usize::MAX / 2,
    ensures
        s@ == base64_url_safe(nonce@),
        s@.len() == 4 * ((nonce@.len() + 2) / 3),
        forall|i: int| 0 <= i < s@.len() ==> is_url_safe_char(#[trigger] s@[i]),
{
    let s = encode_url_safe(nonce);
    proof {
        lemma_base64_shape(nonce@);
    }
    s
}

/// A fresh random token: `size` bytes from the operating system's random
/// source, encoded as URL-safe base64 (see [`token_from_bytes`]); none where
/// the random source fails.
pub fn challenge_gen(size: usize) -> (r: Option<String>)
    requires
        size <= usize::MAX / 2,
    ensures
        r matches Some(s) ==> exists|bytes: Seq<u8>|
            bytes.len() == size && s@ == #[trigger] base64_url_safe(bytes),
        r matches Some(s) ==> s@.len() == 4 * ((size + 2) / 3),
        r matches Some(s) ==> forall|i: int|
            0 <= i < s@.len() ==> is_url_safe_char(#[trigger] s@[i]),
{
    match os_random_bytes(size) {
        Some(bytes) => {
            let s = token_from_bytes(bytes.as_slice());
            Some(s)
        },
        None => None,
    }
}

#[verifier::external_type_specification]
#[verifier::external_body]
pub struct ExSystemTime(std::time::SystemTime);

/// Calls `std::time::SystemTime::now`: the system clock's current time.
/// Nothing is stated of it.
#[verifier::external_body]
fn system_now() -> std::time::SystemTime {
    std::time::SystemTime::now()
}

/// Calls `duration_since(UNIX_EPOCH)` on `t`: the time since the Unix epoch
/// as whole seconds and the nanoseconds past them, which are fewer than a
/// billion; none where `t` is before the epoch. Nothing is stated of the
/// duration itself.
#[verifier::external_body]
fn since_unix_epoch(t: &std::time::SystemTime) -> (r: Option<(u64, u32)>)
    ensures
        r matches Some((_, nanos)) ==> nanos < 1_000_000_000,
{
    match t.duration_since(std::time::UNIX_EPOCH) {
        Ok(d) => Some((d.as_secs(), d.subsec_nanos())),
        Err(_) => None,
    }
}

/// A number of seconds after the Unix epoch (in the year 200000 or so) up to
/// which chrono represents every time: its dates run to the year 262142.
pub const CHRONO_SAFE_SECS: i64 = 8_000_000_000_000;

/// Calls `chrono::DateTime::from_timestamp(secs, nanos)` and, where it gives
/// a time, its `timestamp_millis`: the milliseconds of `secs` seconds and
/// `nanos` nanoseconds. It gives a time at least for every `secs` from 0 to
/// [`CHRONO_SAFE_SECS`] with `nanos` below a billion; where else it does is
/// not stated.
#[verifier::external_body]
fn chrono_timestamp_millis(secs: i64, nanos: u32) -> (r: Option<i64>)
    ensures
        r matches Some(m) ==> m == secs * 1000 + nanos / 1_000_000,
        0 <= secs <= CHRONO_SAFE_SECS && nanos < 1_000_000_000 ==> r is Some,
{
    match chrono::DateTime::from_timestamp(secs, nanos) {
        Some(t) => Some(t.timestamp_millis()),
        None => None,
    }
}

/// The milliseconds in a clock reading of `secs` seconds and `nanos`
/// nanoseconds, the nanoseconds below a whole millisecond dropped.
pub open spec fn clock_millis(secs: u64, nanos: u32) -> int {
    secs * 1000 + nanos / 1_000_000
}

/// The milliseconds since the Unix epoch of a clock reading of `secs`
/// seconds and `nanos` nanoseconds past the epoch, as chrono counts them:
/// none where the seconds do not fit an `i64`, or chrono's range does not
/// hold them.
pub fn millis_from_clock(secs: u64, nanos: u32) -> (r: Option<i64>)
    requires
        nanos < 1_000_000_000,
    ensures
        secs > i64::MAX ==> r is None,
        r matches Some(m) ==> m == clock_millis(secs, nanos),
        secs <= CHRONO_SAFE_SECS ==> r is Some,
{
    if secs <= (i64::MAX as u64) {
        chrono_timestamp_millis(secs as i64, nanos)
    } else {
        None
    }
}

/// The current time in milliseconds since the Unix epoch: the system
/// clock's reading (see [`millis_from_clock`]); none where the clock is
/// before the epoch or out of chrono's range. (chrono's `Utc::now` reads
/// the same clock the same way, but panics in those cases.)
pub fn now_millis() -> (r: Option<i64>)
    ensures
        r matches Some(m) ==> m >= 0,
        r matches Some(m) ==> exists|secs: u64, nanos: u32|
            nanos < 1_000_000_000 && m == #[trigger] clock_millis(secs, nanos),
{
    let t = system_now();
    match since_unix_epoch(&t) {
        Some((secs, nanos)) => millis_from_clock(secs, nanos),
        None => None,
    }
}

/// The time `mins` minutes after (or, negative, before) the time `now`,
/// both in milliseconds.
pub open spec fn ttl_value(mins: int, now: int) -> int {
    mins * 60000 + now
}

/// The time `mins` minutes after (or, negative, before) `now`, in
/// milliseconds since the Unix epoch.
pub fn ttl_at(mins: i64, now: i64) -> (t: i64)
    requires
        i64::MIN <= ttl_value(mins as int, now as int) <= i64::MAX,
    ensures
        t == ttl_value(mins as int, now as int),
{
    let wide = (mins as i128) * (MILLIS_PER_MINUTE as i128) + (now as i128);
    wide as i64
}

/// The time `mins` minutes after `now`, in milliseconds; none where it
/// does not fit an `i64`.
pub fn ttl_after(mins: i64, now: i64) -> (t: Option<i64>)
    ensures
        i64::MIN <= ttl_value(mins as int, now as int) <= i64::MAX ==> t == Some(
            ttl_value(mins as int, now as int) as i64,
        ),
        !(i64::MIN <= ttl_value(mins as int, now as int) <= i64::MAX) ==> t is None,
{
    let shift = (mins as i128) * 60000;
    let sum = shift + (now as i128);
    if sum < (i64::MIN as i128) || sum > (i64::MAX as i128) {
        None
    } else {
        Some(ttl_at(mins, now))
    }
}

/// The time `mins` minutes after a clock reading of `secs` seconds and
/// `nanos` nanoseconds past the Unix epoch, in milliseconds (see
/// [`millis_from_clock`] and [`ttl_after`]): none where the reading is out
/// of chrono's range, or the time does not fit an `i64`.
pub fn ttl_from_clock(mins: i64, secs: u64, nanos: u32) -> (t: Option<i64>)
    requires
        nanos < 1_000_000_000,
    ensures
        t matches Some(v) ==> v == ttl_value(mins as int, clock_millis(secs, nanos)),
        t is Some ==> clock_millis(secs, nanos) <= i64::MAX,
        secs > i64::MAX ==> t is None,
        secs <= CHRONO_SAFE_SECS ==> (t is Some <==> i64::MIN <= ttl_value(
            mins as int,
            clock_millis(secs, nanos),
        ) <= i64::MAX),
{
    match millis_from_clock(secs, nanos) {
        Some(now) => ttl_after(mins, now),
        None => None,
    }
}

/// The time `mins` minutes from now, in milliseconds since the Unix epoch:
/// the system clock's reading taken to [`ttl_from_clock`]; none where the
/// clock is before the epoch, or [`ttl_from_clock`] gives none.
pub fn ttl(mins: i64) -> (t: Option<i64>)
    ensures
        t matches Some(v) ==> exists|now: i64|
            now >= 0 && v == #[trigger] ttl_value(mins as int, now as int),
        t matches Some(v) ==> exists|secs: u64, nanos: u32|
            nanos < 1_000_000_000 && v == #[trigger] ttl_value(mins as int, clock_millis(secs, nanos)),
{
    let clock = system_now();
    match since_unix_epoch(&clock) {
        Some((secs, nanos)) => {
            let t = ttl_from_clock(mins, secs, nanos);
            proof {
                if t is Some {
                    let now = clock_millis(secs, nanos) as i64;
                    assert(ttl_value(mins as int, now as int) == ttl_value(mins as int, clock_millis(secs, nanos)));
                }
            }
            t
        },
        None => None,
    }
}

impl Challenge {
    /// A fresh challenge with the token `token` for the user with the email
    /// `email`, pending until `ttl`, stored in the collection `challenges`.
    pub fn pending_for(token: String, email: String, ttl: i64) -> (c: Challenge)
        ensures
            c._id@ == "challenges/"@ + token@,
            c.challenge == token,
            c.email == email,
            c.username is None,
            c.pending,
            c.ttl == ttl,
    {
        let id = String::from_str("challenges/").concat(token.as_str());
        Challenge { _id: id, challenge: token, email, username: None, pending: true, ttl }
    }

    /// Whether the challenge can still be used at the time `now`: it is
    /// pending and not expired.
    pub fn is_valid_at(&self, now: i64) -> (r: bool)
        ensures
            r == (self.pending && self.ttl > now),
    {
        self.pending && self.ttl > now
    }
}

/// The query that removes the challenge with a given token, which is used
/// once, and returns it.
pub open spec fn consume_challenge_text() -> Seq<char> {
    "FOR c IN challenges FILTER c._key == @challenge\n            REMOVE c in challenges let ch = OLD\n\t\t\tRETURN ch\n\t\t"@
}

/// The request that removes and returns the challenge with the token
/// `token`; in batches of 1.
pub fn consume_challenge_query(token: String) -> (r: AqlRequest)
    ensures
        r@ == (AqlView {
            query: consume_challenge_text(),
            bind_vars: seq![("challenge"@, BindValueView::Text(token@))],
            batch_size: Some(1),
        }),
{
    let ghost t = token@;
    let r = AqlRequest::new(
        "FOR c IN challenges FILTER c._key == @challenge\n            REMOVE c in challenges let ch = OLD\n\t\t\tRETURN ch\n\t\t",
    ).bind_var("challenge", BindValue::Text(token)).batch_size(1);
    assert(r@.bind_vars =~= seq![("challenge"@, BindValueView::Text(t))]);
    r
}

/// The query that stores a bearer token and links it to the user of an
/// email address.
pub open spec fn insert_bearer_text() -> Seq<char> {
    "\n\t\t\tLET usr = FIRST (FOR u IN users FILTER u.email == @email RETURN u)\n\t\t\tINSERT @data INTO bearer_tokens let t = NEW\n\t\t\tINSERT {_from: t._id, _to: usr._id} INTO bearer_to_user LET b = NEW\n\t\t\tRETURN t"@
}

/// The request that stores the bearer token whose JSON document is
/// `bearer` for the email address of `challenge`.
pub open spec fn bearer_request(challenge: Challenge, bearer: Seq<char>) -> AqlView {
    AqlView {
        query: insert_bearer_text(),
        bind_vars: seq![
            ("email"@, BindValueView::Text(challenge.email@)),
            ("data"@, BindValueView::Json(bearer)),
        ],
        batch_size: Some(1),
    }
}

/// Whether the challenge that was taken out, if any, can be used at the
/// time `now`: it is pending and not expired.
pub open spec fn challenge_usable(challenge: Option<Challenge>, now: i64) -> bool {
    match challenge {
        Some(c) => c.pending && c.ttl > now,
        None => false,
    }
}

/// The request made once the challenge asked for has been taken out (none
/// where no challenge had that token), at the time `now`: where it can be
/// used, the one that stores the bearer token whose JSON document is
/// `bearer` for the challenge's email; else none, and no bearer token is
/// handed out.
pub fn bearer_query(challenge: Option<Challenge>, now: i64, bearer: String) -> (r: Option<AqlRequest>)
    ensures
        challenge_usable(challenge, now) ==> (r matches Some(q) && q@ == bearer_request(
            challenge.unwrap(),
            bearer@,
        )),
        !challenge_usable(challenge, now) ==> r is None,
{
    match challenge {
        Some(c) => {
            if c.is_valid_at(now) {
                let ghost b = bearer@;
                let r = AqlRequest::new(
                    "\n\t\t\tLET usr = FIRST (FOR u IN users FILTER u.email == @email RETURN u)\n\t\t\tINSERT @data INTO bearer_tokens let t = NEW\n\t\t\tINSERT {_from: t._id, _to: usr._id} INTO bearer_to_user LET b = NEW\n\t\t\tRETURN t",
                ).bind_var("email", BindValue::Text(c.email.clone())).bind_var(
                    "data",
                    BindValue::Json(bearer),
                ).batch_size(1);
                assert(r@.bind_vars =~= bearer_request(c, b).bind_vars);
                Some(r)
            } else {
                None
            }
        },
        None => None,
    }
}

/// The challenges stored, by token, and the challenge taken out, once the
/// challenge with the token `token` has been taken out of `store`, as the
/// query of [`consume_challenge_query`] takes it out: removed whatever it
/// holds, and handed back.
pub open spec fn consume_challenge(store: Map<Seq<char>, Challenge>, token: Seq<char>) -> (
    Map<Seq<char>, Challenge>,
    Option<Challenge>,
) {
    (store.remove(token), if store.contains_key(token) {
        Some(store[token])
    } else {
        None
    })
}

/// A challenge is used once: once taken out, a second request with its
/// token finds no challenge, which can not be used at any time, so that
/// [`bearer_query`] hands out no bearer token for it.
pub proof fn lemma_challenge_used_once(store: Map<Seq<char>, Challenge>, token: Seq<char>, now: i64)
    ensures
        consume_challenge(consume_challenge(store, token).0, token).1 is None,
        !challenge_usable(consume_challenge(consume_challenge(store, token).0, token).1, now),
{
}

/// The query that tells whether a bearer token is stored.
pub open spec fn verify_token_text() -> Seq<char> {
    "RETURN IS_DOCUMENT(DOCUMENT('bearer_tokens', @tok))"@
}

/// The request that tells whether the bearer token `token` is stored; in
/// batches of 1.
pub fn verify_token_query(token: String) -> (r: AqlRequest)
    ensures
        r@ == (AqlView {
            query: verify_token_text(),
            bind_vars: seq![("tok"@, BindValueView::Text(token@))],
            batch_size: Some(1),
        }),
{
    let ghost t = token@;
    let r = AqlRequest::new("RETURN IS_DOCUMENT(DOCUMENT('bearer_tokens', @tok))").bind_var(
        "tok",
        BindValue::Text(token),
    ).batch_size(1);
    assert(r@.bind_vars =~= seq![("tok"@, BindValueView::Text(t))]);
    r
}

/// What a request to a protected route comes to once the database has said
/// whether its bearer token is stored: it goes on, or it is unauthorised.
pub fn verify_token(found: bool) -> (r: Result<(), ServiceError>)
    ensures
        r == (if found {
            Ok::<(), ServiceError>(())
        } else {
            Err(ServiceError::Unauthorised)
        }),
{
    if found {
        Ok(())
    } else {
        Err(ServiceError::Unauthorised)
    }
}

/// The bearer token that an `AUTHORIZATION` header's value carries: the
/// last of its space-separated words.
pub fn token_from_header(value: &str) -> (token: String)
    ensures
        token@ == split_on(value@, ' ').last(),
{
    let mut words = split_text(value, ' ');
    let ghost all = words.deep_view();
    let last = words.pop();
    match last {
        Some(t) => {
            assert(t@ == all.last());
            t
        },
        None => String::new(),
    }
}

/// A header value made of a scheme, a space and a token free of spaces
/// carries that token.
pub proof fn lemma_token_from_scheme(scheme: Seq<char>, token: Seq<char>)
    requires
        forall|i: int| 0 <= i < token.len() ==> token[i] != ' ',
    ensures
        split_on(scheme + seq![' '] + token, ' ').last() == token,
{
    let p = scheme + seq![' '];
    crate::text::lemma_split_on_tail(p, token, ' ');
    assert(p.drop_last() =~= scheme);
    crate::text::lemma_split_on_nonempty(scheme, ' ');
    assert(split_on(p, ' ').last() =~= Seq::<char>::empty());
    assert(Seq::<char>::empty() + token =~= token);
}

/// What the check before a protected route decides.
#[derive(Debug, Clone)]
pub enum AuthStep {
    /// Let the request through.
    Done,
    /// Ask the database whether this bearer token is stored.
    Verify(String),
    /// Refuse the request.
    Reject(ServiceError),
}

/// The check made before a protected route.
#[derive(Debug, Clone, Copy)]
pub struct AuthMiddleware;

impl AuthMiddleware {
    /// The first step of the check of a request with the method `method`,
    /// which carries an `AUTHORIZATION` header or not, and the value of its
    /// `bearer` cookie, if any: preflight (`OPTIONS`) requests pass; a
    /// request without the header, or else without the cookie, is
    /// unauthorised; the cookie's token is checked otherwise.
    pub fn start(&self, method: &str, has_authorization: bool, bearer_cookie: Option<String>) -> (step: AuthStep)
        ensures
            method@ == "OPTIONS"@ ==> step is Done,
            method@ != "OPTIONS"@ && !has_authorization ==> step == AuthStep::Reject(ServiceError::Unauthorised),
            method@ != "OPTIONS"@ && has_authorization ==> match bearer_cookie {
                Some(t) => step == AuthStep::Verify(t),
                None => step == AuthStep::Reject(ServiceError::Unauthorised),
            },
    {
        if crate::text::str_eq(method, "OPTIONS") {
            return AuthStep::Done;
        }
        if !has_authorization {
            return AuthStep::Reject(ServiceError::Unauthorised);
        }
        match bearer_cookie {
            Some(t) => AuthStep::Verify(t),
            None => AuthStep::Reject(ServiceError::Unauthorised),
        }
    }
}

/// One thing done in answer to a request to log in or to sign up.
#[derive(Debug, Clone)]
pub enum AccountAction {
    /// Answer with a temporary redirect (HTTP 307) to signing up.
    Redirect,
    /// Store this new user.
    StoreUser(NewUser),
    /// Store a fresh challenge for the user with this email address and
    /// answer with its token.
    SendChallenge(String),
}

/// What a request to log in with the email address `email` comes to, where
/// a user with that address exists or not: a fresh challenge for the user,
/// or a redirect to signing up.
pub open spec fn login_plan(email: String, user_exists: bool) -> Seq<AccountAction> {
    if user_exists {
        seq![AccountAction::SendChallenge(email)]
    } else {
        seq![AccountAction::Redirect]
    }
}

/// What a request to sign up with the form `form` at the time `created_at`
/// comes to, where a user with its email address exists or not: a fresh
/// challenge for that user; or the new user stored (see
/// [`NewUser::is_signup_of`]), then a fresh challenge for it.
pub open spec fn is_signup_plan(plan: Seq<AccountAction>, form: Signup, user_exists: bool, created_at: i64) -> bool {
    if user_exists {
        plan == seq![AccountAction::SendChallenge(form.email)]
    } else {
        &&& plan.len() == 2
        &&& plan[0] matches AccountAction::StoreUser(u) && u.is_signup_of(form, created_at)
        &&& plan[1] == AccountAction::SendChallenge(form.email)
    }
}

/// The actions a request to log in with `email` comes to.
pub fn login_actions(email: String, user_exists: bool) -> (r: Vec<AccountAction>)
    ensures
        r@ == login_plan(email, user_exists),
{
    if user_exists {
        vec![AccountAction::SendChallenge(email)]
    } else {
        vec![AccountAction::Redirect]
    }
}

/// The actions a request to sign up with `form` at `created_at` comes to.
pub fn signup_actions(form: &Signup, user_exists: bool, created_at: i64) -> (r: Vec<AccountAction>)
    ensures
        is_signup_plan(r@, *form, user_exists, created_at),
{
    let mut plan: Vec<AccountAction> = Vec::new();
    if !user_exists {
        plan.push(AccountAction::StoreUser(NewUser::signup(form, created_at)));
    }
    plan.push(AccountAction::SendChallenge(form.email.clone()));
    proof {
        if user_exists {
            assert(plan@ =~= seq![AccountAction::SendChallenge(form.email)]);
        }
    }
    plan
}

/// Signing up with the email address of a user that exists does what
/// logging in with that address does, and stores no user.
pub proof fn lemma_signup_of_existing_user_is_login(plan: Seq<AccountAction>, form: Signup, created_at: i64)
    requires
        is_signup_plan(plan, form, true, created_at),
    ensures
        plan == login_plan(form.email, true),
        forall|i: int| 0 <= i < plan.len() ==> !(#[trigger] plan[i] is StoreUser),
{
}

/// How many random bytes a login challenge token holds.
pub const CHALLENGE_BYTES: usize = 32;

/// How many random bytes a bearer token holds.
pub const BEARER_BYTES: usize = 64;

/// For how many minutes a login challenge can be used.
pub const CHALLENGE_MINUTES: i64 = 15;

/// For how many minutes a bearer token is valid (about a month).
pub const BEARER_MINUTES: i64 = 43800;

/// The name of the cookie that carries the bearer token.
pub const BEARER_COOKIE: &'static str = "bearer";

} // verus!

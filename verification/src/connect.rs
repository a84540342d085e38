//! Starting the service: the address it listens on and the attempts it
//! makes to connect to its database before it gives up.

use vstd::prelude::*;

verus! {

/// The exit code of the service when it could not connect to its database.
pub const GIVE_UP_EXIT_CODE: i32 = 111;

/// The address the server listens on: the host given (else `localhost`),
/// a colon, and the port given (else `5000`).
pub fn bind_address(host: Option<String>, port: Option<String>) -> (addr: String)
    ensures
        addr@ == match host {
            Some(h) => h@,
            None => "localhost"@,
        } + ":"@ + match port {
            Some(p) => p@,
            None => "5000"@,
        },
{
    let mut addr = match host {
        Some(h) => h,
        None => "localhost".to_owned(),
    };
    addr.append(":");
    match &port {
        Some(p) => addr.append(p.as_str()),
        None => addr.append("5000"),
    }
    addr
}

/// A count read from a setting's text: the number it denotes (see
/// [`crate::text::parsed_usize`]), or 1 where it denotes none.
pub fn count_or_default(text: &str) -> (count: usize)
    ensures
        count == match crate::text::parsed_usize(text@) {
            Some(v) => v as usize,
            None => 1usize,
        },
{
    match crate::text::parse_usize(text) {
        Some(v) => v,
        None => 1,
    }
}

/// How long, in seconds, each attempt to connect may take, where `timeout`
/// seconds are shared out among `tries` attempts.
pub fn connection_timeout_secs(timeout: u64, tries: u8) -> (secs: u64)
    requires
        tries > 0,
    ensures
        secs == timeout / (tries as u64),
{
    timeout / (tries as u64)
}

/// What the service does after a failed attempt to connect.
#[derive(Debug, Clone, Copy, PartialEq, Eq, Structural)]
pub enum ConnectStep {
    /// Try again, with the count of failed attempts so far.
    Retry(u8),
    /// Stop the service.
    GiveUp,
}

/// The next count of failed attempts after a failed attempt, where
/// `conn_tries` attempts had failed before it and `tries` attempts are
/// allowed; none where the service gives up, once `tries` attempts have
/// failed.
pub open spec fn next_attempt(conn_tries: nat, tries: nat) -> Option<nat> {
    if conn_tries + 1 >= tries {
        None
    } else {
        Some(conn_tries + 1)
    }
}

/// What the service does after an attempt to connect failed, where
/// `conn_tries` attempts had failed before it: it gives up once `tries`
/// attempts have failed, and tries again otherwise.
pub fn after_failed_attempt(conn_tries: u8, tries: u8) -> (step: ConnectStep)
    ensures
        match next_attempt(conn_tries as nat, tries as nat) {
            Some(n) => step == ConnectStep::Retry(n as u8),
            None => step == ConnectStep::GiveUp,
        },
{
    if (conn_tries as u16) + 1 >= (tries as u16) {
        ConnectStep::GiveUp
    } else {
        ConnectStep::Retry(conn_tries + 1)
    }
}

/// How many attempts the service makes, all failing, from the count
/// `conn_tries` of failed attempts on.
pub open spec fn attempts_until_give_up(conn_tries: nat, tries: nat) -> nat
    decreases tries - conn_tries,
{
    match next_attempt(conn_tries, tries) {
        None => 1,
        Some(n) => 1 + attempts_until_give_up(n, tries),
    }
}

/// `tries` is the number of attempts the service makes before it exits:
/// where every attempt fails, it gives up after exactly `tries` attempts
/// (at least one attempt is always made).
pub proof fn lemma_gives_up_after_all_tries(tries: nat)
    requires
        tries >= 1,
    ensures
        attempts_until_give_up(0, tries) == tries,
{
    lemma_attempts_from(0, tries);
}

/// From `k` failed attempts on, fewer than `tries`, there are `tries - k`
/// attempts left.
pub proof fn lemma_attempts_from(k: nat, tries: nat)
    requires
        k < tries,
    ensures
        attempts_until_give_up(k, tries) == tries - k,
    decreases tries - k,
{
    if k + 1 < tries {
        lemma_attempts_from(k + 1, tries);
    }
}

} // verus!

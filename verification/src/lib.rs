//! Solve synchronisation for a Hack The Box team: which solves of the team's
//! activity feed are new, what is announced for each of them, and what is
//! remembered once an announcement has gone out.

use crate::htb::api_types::{ActivityEvent, JWTClaims, RankStatsData};
use crate::reconcile::{event_views, keys_of, lemma_keys_of_push};
use crate::solve_cache::KnownSolves;
use chrono::Local;
use vstd::prelude::*;

pub mod catalog;
pub mod catalog_sync;
pub mod commands;
pub mod discord_utils;
pub mod graphql;
pub mod htb;
pub mod reconcile;
pub mod scheduler;
pub mod solve_cache;
pub mod tasks;

verus! {

/// The subject of a solve, as a notification shows it.
#[derive(Debug)]
pub struct Challenge {
    pub name: String,
    pub points: i64,
    /// The id of the category that the catalog files the subject under.
    pub category: i64,
    /// The path of the subject's picture on the platform, if it has one.
    pub machine_avatar: Option<String>,
}

/// How long a request to the platform may take, in seconds.
pub const REQUEST_TIMEOUT_SECS: u64 = 10;

/// How long before its expiry a token is renewed, in seconds.
pub const RENEWAL_LEEWAY_SECS: u32 = 300;

/// The local clock, read once.
struct LocalClock {
    /// Whole seconds since the Unix epoch.
    unix_seconds: i64,
    /// The local date and time, as the channel topic shows them.
    stamp: String,
}

/// `chrono::Local::now`, read through `DateTime::timestamp` and through
/// `DateTime::format` with the pattern of the channel topic. Nothing is
/// claimed of what the clock says.
#[verifier::external_body]
fn read_local_clock() -> LocalClock {
    let now = Local::now();
    LocalClock { unix_seconds: now.timestamp(), stamp: now.format("%a %b %e %T").to_string() }
}

/// Records every solve of a snapshot as known, without announcing any.
///
/// This is how the record is filled when the process starts: what the feed
/// lists then is history, not news.
pub fn load_solves_to_cache<K: KnownSolves>(cache: &mut K, team_solves: &Vec<ActivityEvent>)
    ensures
        final(cache).known() == old(cache).known().union(keys_of(event_views(team_solves@))),
{
    let ghost views = event_views(team_solves@);
    let ghost before = cache.known();
    let mut i: usize = 0;
    assert(cache.known() =~= before.union(keys_of(views.take(0))));
    while i < team_solves.len()
        invariant
            i <= team_solves.len(),
            views == event_views(team_solves@),
            cache.known() == before.union(keys_of(views.take(i as int))),
        decreases team_solves.len() - i,
    {
        let solve = &team_solves[i];
        proof {
            lemma_keys_of_push(views.take(i as int), views[i as int]);
            assert(views.take(i + 1) =~= views.take(i as int).push(views[i as int]));
        }
        cache.record(solve.actor.id, solve.event_id, solve.kind.as_str());
        assert(cache.known() =~= before.union(keys_of(views.take(i + 1))));
        i = i + 1;
    }
    assert(views.take(team_solves.len() as int) =~= views);
}

/// Whether a token with this expiry is still valid at the given time: it is
/// until its expiry has passed.
pub open spec fn valid_at(exp: i64, now: i64) -> bool {
    now <= exp
}

/// Whether the token is still valid at the given time, in seconds since the
/// Unix epoch.
pub fn jwt_valid_at(jwt: &JWTClaims, now: i64) -> (valid: bool)
    ensures
        valid == valid_at(jwt.exp, now),
{
    now <= jwt.exp
}

/// Whether the token is still valid by the local clock.
pub fn jwt_still_valid(jwt: &JWTClaims) -> (valid: bool)
    ensures
        exists|now: i64| valid == #[trigger] valid_at(jwt.exp, now),
        jwt.exp == i64::MAX ==> valid,
{
    let clock = read_local_clock();
    let valid = jwt_valid_at(jwt, clock.unix_seconds);
    assert(valid == valid_at(jwt.exp, clock.unix_seconds));
    valid
}

/// Whether a token with this expiry is renewed at the given time: once it
/// has expired, and before that as soon as it has no more than `leeway`
/// seconds left.
pub open spec fn renewal_due(exp: i64, now: i64, leeway: u32) -> bool {
    now + leeway > exp
}

/// Whether the token is to be renewed at the given time.
pub fn token_renewal_due_at(jwt: &JWTClaims, now: i64, leeway: u32) -> (due: bool)
    ensures
        due == renewal_due(jwt.exp, now, leeway),
        leeway == 0 ==> due == !valid_at(jwt.exp, now),
{
    now as i128 + leeway as i128 > jwt.exp as i128
}

/// Whether the token is to be renewed by the local clock.
pub fn token_renewal_due(jwt: &JWTClaims, leeway: u32) -> (due: bool)
    ensures
        exists|now: i64| due == #[trigger] renewal_due(jwt.exp, now, leeway),
{
    let clock = read_local_clock();
    let due = token_renewal_due_at(jwt, clock.unix_seconds, leeway);
    assert(due == renewal_due(jwt.exp, clock.unix_seconds, leeway));
    due
}

/// The decimal digit for a number below ten.
pub open spec fn digit(d: int) -> char {
    "0123456789"@[d]
}

/// A natural number in decimal, without leading zeros.
pub open spec fn decimal_digits(n: nat) -> Seq<char>
    decreases n,
{
    if n < 10 {
        seq![digit(n as int)]
    } else {
        decimal_digits(n / 10).push(digit((n % 10) as int))
    }
}

/// An integer in decimal, with a minus sign in front where it is negative.
pub open spec fn decimal_text(n: int) -> Seq<char> {
    if n < 0 {
        seq!['-'] + decimal_digits((-n) as nat)
    } else {
        decimal_digits(n as nat)
    }
}

/// `i64::to_string`: the number in decimal, with a minus sign in front
/// where it is negative.
#[verifier::external_body]
fn i64_to_string(n: i64) -> (text: String)
    ensures
        text@ == decimal_text(n as int),
{
    n.to_string()
}

/// The topic of the team's channel for a standing last read at `stamp`.
pub open spec fn topic_text(rank: i64, points: i64, stamp: Seq<char>) -> Seq<char> {
    "Team rank "@ + decimal_text(rank as int) + ", Points: "@ + decimal_text(points as int)
        + ". Last updated: "@ + stamp
}

/// The topic of the team's channel: the team's rank and points, and when
/// they were read. Each update replaces the topic as a whole.
pub fn htb_channel_topic(stats: &RankStatsData, stamp: &str) -> (topic: String)
    ensures
        topic@ == topic_text(stats.rank, stats.points, stamp@),
{
    let mut topic = "Team rank ".to_owned();
    topic.append(i64_to_string(stats.rank).as_str());
    topic.append(", Points: ");
    topic.append(i64_to_string(stats.points).as_str());
    topic.append(". Last updated: ");
    topic.append(stamp);
    topic
}

/// The topic of the team's channel for a standing read now, by the local
/// clock.
pub fn update_htb_channel_topic_with_stats(stats: &RankStatsData) -> (topic: String)
    ensures
        exists|stamp: Seq<char>| topic@ == #[trigger] topic_text(stats.rank, stats.points, stamp),
{
    let clock = read_local_clock();
    let topic = htb_channel_topic(stats, clock.stamp.as_str());
    assert(topic@ == topic_text(stats.rank, stats.points, clock.stamp@));
    topic
}

/// The value of the authorization header for a token of the given type.
pub open spec fn authorization_text(token_type: Seq<char>, api_key: Seq<char>) -> Seq<char> {
    token_type + " "@ + api_key
}

/// The value of the authorization header sent with every request: the
/// token's type, a space, and the token.
pub fn authorization_header(api_key: &str, token_type: &str) -> (value: String)
    ensures
        value@ == authorization_text(token_type@, api_key@),
{
    let mut value = token_type.to_owned();
    value.append(" ");
    value.append(api_key);
    value
}

} // verus!

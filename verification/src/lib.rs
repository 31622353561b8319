pub mod date_service;
pub mod date_utils;
pub mod entities;
pub mod instant;

use vstd::prelude::*;

use crate::date_service::{all_entries, filtered, views, DateService};
use crate::entities::anniversary::{Anniversary, AnniversaryView};
use crate::instant::Instant;

verus! {

/// The default milestone counts, applied to each of the three unit kinds.
pub open spec fn default_counts_seq() -> Seq<i64> {
    seq![
        42i64,
        314,
        12345,
        123456,
        1234567,
        12345678,
        123456789,
        9876543210,
        876543210,
        76543210,
        6543210,
        543210,
        100,
        1000,
        10000,
        100000,
        1000000,
        10000000,
        100000000,
        1000000000,
        10000000000,
        100000000000,
        1000000000000,
        111,
        1111,
        11111,
        111111,
        1111111,
        11111111,
        111111111,
        1111111111,
        11111111111,
        111111111111,
        1111111111111,
        11111111111111,
        333,
        4444,
        55555,
        666,
        666666,
        777,
        7777777,
        88888888,
        999999999,
    ]
}

/// The default milestone counts as a list, in their fixed order.
pub fn default_counts() -> (r: Vec<i64>)
    ensures
        r@ == default_counts_seq(),
        forall|i: int| 0 <= i < r@.len() ==> r@[i] >= 0,
{
    let r: Vec<i64> = vec![
        42,
        314,
        12345,
        123456,
        1234567,
        12345678,
        123456789,
        9876543210,
        876543210,
        76543210,
        6543210,
        543210,
        100,
        1000,
        10000,
        100000,
        1000000,
        10000000,
        100000000,
        1000000000,
        10000000000,
        100000000000,
        1000000000000,
        111,
        1111,
        11111,
        111111,
        1111111,
        11111111,
        111111111,
        1111111111,
        11111111111,
        111111111111,
        1111111111111,
        11111111111111,
        333,
        4444,
        55555,
        666,
        666666,
        777,
        7777777,
        88888888,
        999999999,
    ];
    proof {
        assert(r@ =~= default_counts_seq());
    }
    r
}

/// The instant a well-formed timestamp text denotes, as UTC epoch seconds
/// and subsecond nanoseconds; `None` for text that does not parse.
pub uninterp spec fn rfc3339_secs_nanos(s: Seq<char>) -> Option<(int, int)>;

/// The instant a well-formed timestamp text denotes.
pub open spec fn parsed_instant(s: Seq<char>) -> Instant {
    let p = rfc3339_secs_nanos(s).unwrap();
    Instant { secs: p.0 as i64, nanos: p.1 as u32 }
}

/// Relies on chrono's `DateTime::parse_from_rfc3339`: whether the text
/// parses, and the instant it denotes, depend on the text alone. The parsed
/// value is converted to UTC with `with_timezone` — which keeps the instant —
/// and read off with `timestamp` and `timestamp_subsec_nanos`; every instant
/// chrono can represent lies in the supported calendar range, with subsecond
/// nanoseconds below two billion.
#[verifier::external_body]
fn parse_rfc3339(s: &str) -> (r: Option<Instant>)
    ensures
        r is Some <==> rfc3339_secs_nanos(s@) is Some,
        r matches Some(t) ==> rfc3339_secs_nanos(s@) == Some((t.secs as int, t.nanos as int))
            && t.wf(),
{
    match chrono::DateTime::parse_from_rfc3339(s) {
        Ok(d) => {
            let d = d.with_timezone(&chrono::Utc);
            Some(Instant { secs: d.timestamp(), nanos: d.timestamp_subsec_nanos() })
        },
        Err(_) => None,
    }
}

/// The entries the entry points return for a timestamp text that parses:
/// everything generated from the default counts, cut down to one side of
/// `now` when one is requested.
pub open spec fn find_result(s: Seq<char>, now: Instant, is_past: Option<bool>) -> Seq<
    AnniversaryView,
> {
    let entries = all_entries(parsed_instant(s), default_counts_seq());
    match is_past {
        None => entries,
        Some(p) => filtered(entries, now, p),
    }
}

fn find_anniversaries(date_str: &str, now: Instant, is_past: Option<bool>) -> (r: Option<
    Vec<Anniversary>,
>)
    requires
        now.wf(),
    ensures
        r is Some <==> rfc3339_secs_nanos(date_str@) is Some,
        r matches Some(v) ==> views(v@) == find_result(date_str@, now, is_past),
{
    match parse_rfc3339(date_str) {
        Some(date) => {
            let service: DateService = DateService {
                now,
                fun_anniversaries_count: default_counts(),
            };
            Some(service.find_anniversaries_from_date(date, is_past))
        },
        None => None,
    }
}

/// The anniversaries of `date_str` at or after `now`, in generation order;
/// `None` exactly when the text does not parse as a timestamp.
pub fn find_anniversaries_future(date_str: &str, now: Instant) -> (r: Option<Vec<Anniversary>>)
    requires
        now.wf(),
    ensures
        r is Some <==> rfc3339_secs_nanos(date_str@) is Some,
        r matches Some(v) ==> views(v@) == find_result(date_str@, now, Some(false)),
{
    find_anniversaries(date_str, now, Some(false))
}

/// The anniversaries of `date_str` strictly before `now`, in generation
/// order; `None` exactly when the text does not parse as a timestamp.
pub fn find_anniversaries_past(date_str: &str, now: Instant) -> (r: Option<Vec<Anniversary>>)
    requires
        now.wf(),
    ensures
        r is Some <==> rfc3339_secs_nanos(date_str@) is Some,
        r matches Some(v) ==> views(v@) == find_result(date_str@, now, Some(true)),
{
    find_anniversaries(date_str, now, Some(true))
}

/// All anniversaries of `date_str`, in generation order; `None` exactly when
/// the text does not parse as a timestamp.
pub fn find_anniversaries_all(date_str: &str, now: Instant) -> (r: Option<Vec<Anniversary>>)
    requires
        now.wf(),
    ensures
        r is Some <==> rfc3339_secs_nanos(date_str@) is Some,
        r matches Some(v) ==> views(v@) == find_result(date_str@, now, None::<bool>),
{
    find_anniversaries(date_str, now, None)
}

} // verus!

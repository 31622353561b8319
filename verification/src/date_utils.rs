use crate::date_service::{entry, views, Unit};
use crate::entities::anniversary::Anniversary;
use crate::instant::{Instant, MAX_EPOCH_SECS};
use vstd::prelude::*;

verus! {

/// The one fixed seconds milestone.
pub const COOL_SECONDS: i64 = 1_000_000_000;

/// The largest of the fixed day milestones (666, 1 000, 10 000), in seconds.
pub const MAX_COOL_DAYS_SECS: i64 = 864_000_000;

/// The largest of the fixed week milestones (666, 1 000), in seconds.
pub const MAX_COOL_WEEKS_SECS: i64 = 604_800_000;

/// The seconds-unit entries for the fixed milestone list `[1_000_000_000]`.
pub fn create_seconds_anniversaries_from_date(date: Instant) -> (r: Vec<Anniversary>)
    requires
        date.wf(),
        date.secs + COOL_SECONDS <= MAX_EPOCH_SECS,
    ensures
        views(r@) == seq![entry(date, COOL_SECONDS as int, Unit::Seconds)],
{
    let mut r: Vec<Anniversary> = Vec::new();
    let d: Instant = date.checked_add_secs(COOL_SECONDS).unwrap();
    r.push(Anniversary::new_seconds(COOL_SECONDS, d));
    proof {
        assert(views(r@) =~= seq![entry(date, COOL_SECONDS as int, Unit::Seconds)]);
    }
    r
}

/// The days-unit entries for the fixed milestone list `[666, 1_000, 10_000]`.
pub fn create_days_anniversaries_from_date(date: Instant) -> (r: Vec<Anniversary>)
    requires
        date.wf(),
        date.secs + MAX_COOL_DAYS_SECS <= MAX_EPOCH_SECS,
    ensures
        views(r@) == seq![
            entry(date, 666, Unit::Days),
            entry(date, 1000, Unit::Days),
            entry(date, 10000, Unit::Days),
        ],
{
    let mut r: Vec<Anniversary> = Vec::new();
    let d666: Instant = date.checked_add_secs(666 * 86400).unwrap();
    r.push(Anniversary::new_days(666, d666));
    let d1000: Instant = date.checked_add_secs(1000 * 86400).unwrap();
    r.push(Anniversary::new_days(1000, d1000));
    let d10000: Instant = date.checked_add_secs(10000 * 86400).unwrap();
    r.push(Anniversary::new_days(10000, d10000));
    proof {
        assert(views(r@) =~= seq![
            entry(date, 666, Unit::Days),
            entry(date, 1000, Unit::Days),
            entry(date, 10000, Unit::Days),
        ]);
    }
    r
}

/// The weeks-unit entries for the fixed milestone list `[666, 1_000]`.
pub fn create_weeks_anniversaries_from_date(date: Instant) -> (r: Vec<Anniversary>)
    requires
        date.wf(),
        date.secs + MAX_COOL_WEEKS_SECS <= MAX_EPOCH_SECS,
    ensures
        views(r@) == seq![entry(date, 666, Unit::Weeks), entry(date, 1000, Unit::Weeks)],
{
    let mut r: Vec<Anniversary> = Vec::new();
    let w666: Instant = date.checked_add_secs(666 * 604800).unwrap();
    r.push(Anniversary::new_weeks(666, w666));
    let w1000: Instant = date.checked_add_secs(1000 * 604800).unwrap();
    r.push(Anniversary::new_weeks(1000, w1000));
    proof {
        assert(views(r@) =~= seq![entry(date, 666, Unit::Weeks), entry(date, 1000, Unit::Weeks)]);
    }
    r
}

/// All entries for the three fixed milestone lists: the seconds entry, then
/// the three day entries, then the two week entries.
pub fn find_anniversaries_from_date(date: Instant) -> (r: Vec<Anniversary>)
    requires
        date.wf(),
        date.secs + COOL_SECONDS <= MAX_EPOCH_SECS,
    ensures
        views(r@) == seq![entry(date, COOL_SECONDS as int, Unit::Seconds)] + seq![
            entry(date, 666, Unit::Days),
            entry(date, 1000, Unit::Days),
            entry(date, 10000, Unit::Days),
        ] + seq![entry(date, 666, Unit::Weeks), entry(date, 1000, Unit::Weeks)],
{
    let mut anniversaries: Vec<Anniversary> = Vec::new();
    let mut seconds: Vec<Anniversary> = create_seconds_anniversaries_from_date(date);
    anniversaries.append(&mut seconds);

    let mut days: Vec<Anniversary> = create_days_anniversaries_from_date(date);
    anniversaries.append(&mut days);

    let mut weeks: Vec<Anniversary> = create_weeks_anniversaries_from_date(date);
    anniversaries.append(&mut weeks);

    proof {
        assert(views(anniversaries@) =~= seq![entry(date, COOL_SECONDS as int, Unit::Seconds)]
            + seq![
            entry(date, 666, Unit::Days),
            entry(date, 1000, Unit::Days),
            entry(date, 10000, Unit::Days),
        ] + seq![entry(date, 666, Unit::Weeks), entry(date, 1000, Unit::Weeks)]);
    }
    anniversaries
}

} // verus!

use crate::entities::anniversary::{anniversary_name, Anniversary, AnniversaryView};
use crate::instant::{Instant, MAX_EPOCH_SECS};
use vstd::multiset::Multiset;
use vstd::prelude::*;

verus! {

/// The number of (non-leap) seconds in a day.
pub const SECS_PER_DAY: i64 = 86400;

/// The number of (non-leap) seconds in a week.
pub const SECS_PER_WEEK: i64 = 604800;

/// The three supported unit kinds, each a fixed whole number of seconds.
#[derive(Clone, Copy, Debug, PartialEq, Eq, Structural)]
pub enum Unit {
    Seconds,
    Days,
    Weeks,
}

/// The exact length of one unit, in seconds.
pub open spec fn unit_secs(u: Unit) -> int {
    match u {
        Unit::Seconds => 1,
        Unit::Days => SECS_PER_DAY as int,
        Unit::Weeks => SECS_PER_WEEK as int,
    }
}

/// The word naming a unit kind.
pub open spec fn unit_label(u: Unit) -> Seq<char> {
    match u {
        Unit::Seconds => "seconds"@,
        Unit::Days => "days"@,
        Unit::Weeks => "weeks"@,
    }
}

/// A `(count, unit)` pair produces an entry only when neither the
/// millisecond total of the offset overflows a signed 64-bit integer nor the
/// offset instant lands past the end of the supported calendar range.
pub open spec fn fits(date: Instant, count: int, u: Unit) -> bool {
    &&& count * (unit_secs(u) * 1000) <= i64::MAX
    &&& date.secs + count * unit_secs(u) <= MAX_EPOCH_SECS
}

/// The entry produced for one `(count, unit)` pair: its date is the
/// reference instant moved forward by `count` units, with the subsecond
/// offset preserved.
pub open spec fn entry(date: Instant, count: int, u: Unit) -> AnniversaryView {
    AnniversaryView {
        name: anniversary_name(count, unit_label(u)),
        count,
        unit: unit_label(u),
        date: Instant { secs: (date.secs + count * unit_secs(u)) as i64, nanos: date.nanos },
    }
}

/// The entries of one unit kind, one per count in the order of `counts`,
/// with the pairs that do not fit simply absent.
pub open spec fn unit_entries(date: Instant, counts: Seq<i64>, u: Unit) -> Seq<AnniversaryView>
    decreases counts.len(),
{
    if counts.len() == 0 {
        Seq::empty()
    } else {
        let prefix = unit_entries(date, counts.drop_last(), u);
        if fits(date, counts.last() as int, u) {
            prefix.push(entry(date, counts.last() as int, u))
        } else {
            prefix
        }
    }
}

/// The full generated sequence: all seconds entries, then all days entries,
/// then all weeks entries, each group in the order of `counts`.
pub open spec fn all_entries(date: Instant, counts: Seq<i64>) -> Seq<AnniversaryView> {
    unit_entries(date, counts, Unit::Seconds) + unit_entries(date, counts, Unit::Days)
        + unit_entries(date, counts, Unit::Weeks)
}

/// Whether the filter keeps an entry: strictly before `now` when asking for
/// the past, at or after `now` otherwise — an entry landing exactly on `now`
/// counts as future, never as past.
pub open spec fn keeps(a: AnniversaryView, now: Instant, is_past: bool) -> bool {
    if is_past {
        a.date.spec_lt(now)
    } else {
        !a.date.spec_lt(now)
    }
}

/// The stable filter of a sequence of entries against `now`.
pub open spec fn filtered(s: Seq<AnniversaryView>, now: Instant, is_past: bool) -> Seq<
    AnniversaryView,
>
    decreases s.len(),
{
    if s.len() == 0 {
        Seq::empty()
    } else {
        let prefix = filtered(s.drop_last(), now, is_past);
        if keeps(s.last(), now, is_past) {
            prefix.push(s.last())
        } else {
            prefix
        }
    }
}

/// The filter partitions any sequence of entries: the past side and the
/// future side together hold exactly the entries of the input, counted with
/// multiplicity; every entry on the past side is strictly before `now`; and
/// every entry on the future side is at or after `now` — so an entry landing
/// exactly on `now` is always on the future side, never on the past side,
/// and no entry is on both sides or on neither.
pub proof fn lemma_filter_partition(s: Seq<AnniversaryView>, now: Instant)
    ensures
        filtered(s, now, true).len() + filtered(s, now, false).len() == s.len(),
        filtered(s, now, true).to_multiset().add(filtered(s, now, false).to_multiset())
            == s.to_multiset(),
        forall|i: int|
            0 <= i < filtered(s, now, true).len() ==> (#[trigger] filtered(s, now, true)[i])
                .date.spec_lt(now),
        forall|i: int|
            0 <= i < filtered(s, now, false).len() ==> !(#[trigger] filtered(s, now, false)[i])
                .date.spec_lt(now),
    decreases s.len(),
{
    broadcast use vstd::seq_lib::group_to_multiset_ensures;

    let past = filtered(s, now, true);
    let future = filtered(s, now, false);
    if s.len() == 0 {
        assert(s.to_multiset() =~= Multiset::<AnniversaryView>::empty());
        assert(past.to_multiset().add(future.to_multiset()) =~= s.to_multiset());
    } else {
        let prefix = s.drop_last();
        let l = s.last();
        lemma_filter_partition(prefix, now);
        assert(s =~= prefix.push(l));
        assert(s.to_multiset() == prefix.to_multiset().insert(l));
        if keeps(l, now, true) {
            assert(past == filtered(prefix, now, true).push(l));
            assert(past.to_multiset() == filtered(prefix, now, true).to_multiset().insert(l));
            assert(past.to_multiset().add(future.to_multiset()) =~= s.to_multiset());
        } else {
            assert(future == filtered(prefix, now, false).push(l));
            assert(future.to_multiset() == filtered(prefix, now, false).to_multiset().insert(l));
            assert(past.to_multiset().add(future.to_multiset()) =~= s.to_multiset());
        }
    }
}

/// The views of a sequence of entries, element by element.
pub open spec fn views(s: Seq<Anniversary>) -> Seq<AnniversaryView> {
    s.map_values(|a: Anniversary| a@)
}

/// Generates and filters anniversaries against a fixed current instant and a
/// fixed list of counts.
pub struct DateService {
    pub now: Instant,
    pub fun_anniversaries_count: Vec<i64>,
}

impl DateService {
    /// The current instant lies in the supported range and every configured
    /// count is non-negative.
    pub open spec fn wf(&self) -> bool {
        &&& self.now.wf()
        &&& forall|i: int|
            0 <= i < self.fun_anniversaries_count@.len()
                ==> self.fun_anniversaries_count@[i] >= 0
    }

    fn unit_seconds(u: Unit) -> (r: i64)
        ensures
            r == unit_secs(u),
    {
        match u {
            Unit::Seconds => 1,
            Unit::Days => SECS_PER_DAY,
            Unit::Weeks => SECS_PER_WEEK,
        }
    }

    fn new_entry(count: i64, date: Instant, u: Unit) -> (r: Anniversary)
        requires
            count >= 0,
        ensures
            r@ == (AnniversaryView {
                name: anniversary_name(count as int, unit_label(u)),
                count: count as int,
                unit: unit_label(u),
                date,
            }),
    {
        match u {
            Unit::Seconds => Anniversary::new_seconds(count, date),
            Unit::Days => Anniversary::new_days(count, date),
            Unit::Weeks => Anniversary::new_weeks(count, date),
        }
    }

    /// One generation pass for a single unit kind, in the order of the
    /// configured counts, skipping every pair that does not fit.
    #[verifier::loop_isolation(false)]
    fn create_unit_anniversaries(&self, date: Instant, u: Unit) -> (r: Vec<Anniversary>)
        requires
            self.wf(),
            date.wf(),
        ensures
            views(r@) == unit_entries(date, self.fun_anniversaries_count@, u),
    {
        let mut r: Vec<Anniversary> = Vec::new();
        let us: i64 = Self::unit_seconds(u);
        let n: usize = self.fun_anniversaries_count.len();
        let mut i: usize = 0;
        while i < n
            invariant
                i <= n,
                views(r@) =~= unit_entries(
                    date,
                    self.fun_anniversaries_count@.subrange(0, i as int),
                    u,
                ),
            decreases n - i,
        {
            let c: i64 = self.fun_anniversaries_count[i];
            let ghost prev = r@;
            proof {
                assert(c * (us * 1000) >= 0) by (nonlinear_arith)
                    requires
                        c >= 0,
                        us >= 1,
                ;
                assert(c * us <= c * (us * 1000) && c * us >= 0) by (nonlinear_arith)
                    requires
                        c >= 0,
                        us >= 1,
                ;
            }
            if c.checked_mul(us * 1000).is_some() {
                let delta: i64 = c * us;
                match date.checked_add_secs(delta) {
                    Some(d) => {
                        let a: Anniversary = Self::new_entry(c, d, u);
                        r.push(a);
                        proof {
                            assert(views(r@) =~= views(prev).push(a@));
                        }
                    },
                    None => {},
                }
            }
            i = i + 1;
            proof {
                let counts = self.fun_anniversaries_count@;
                assert(counts.subrange(0, i as int).drop_last() =~= counts.subrange(
                    0,
                    i as int - 1,
                ));
                assert(views(r@) =~= unit_entries(date, counts.subrange(0, i as int), u));
            }
        }
        proof {
            assert(self.fun_anniversaries_count@.subrange(0, n as int)
                =~= self.fun_anniversaries_count@);
        }
        r
    }

    /// The seconds-unit entries for the reference instant `date`.
    pub fn create_seconds_anniversaries_from_date(&self, date: Instant) -> (r: Vec<Anniversary>)
        requires
            self.wf(),
            date.wf(),
        ensures
            views(r@) == unit_entries(date, self.fun_anniversaries_count@, Unit::Seconds),
    {
        self.create_unit_anniversaries(date, Unit::Seconds)
    }

    /// The days-unit entries for the reference instant `date`.
    pub fn create_days_anniversaries_from_date(&self, date: Instant) -> (r: Vec<Anniversary>)
        requires
            self.wf(),
            date.wf(),
        ensures
            views(r@) == unit_entries(date, self.fun_anniversaries_count@, Unit::Days),
    {
        self.create_unit_anniversaries(date, Unit::Days)
    }

    /// The weeks-unit entries for the reference instant `date`.
    pub fn create_weeks_anniversaries_from_date(&self, date: Instant) -> (r: Vec<Anniversary>)
        requires
            self.wf(),
            date.wf(),
        ensures
            views(r@) == unit_entries(date, self.fun_anniversaries_count@, Unit::Weeks),
    {
        self.create_unit_anniversaries(date, Unit::Weeks)
    }

    /// Keeps exactly the entries on the requested side of `now`: strictly
    /// earlier when `is_past`, at or after `now` otherwise, preserving their
    /// relative order.
    #[verifier::loop_isolation(false)]
    pub fn filter_anniversaries(&self, anniversaries: Vec<Anniversary>, is_past: bool) -> (r: Vec<
        Anniversary,
    >)
        ensures
            views(r@) == filtered(views(anniversaries@), self.now, is_past),
    {
        let mut kept: Vec<Anniversary> = Vec::new();
        let n: usize = anniversaries.len();
        let mut i: usize = 0;
        while i < n
            invariant
                i <= n,
                views(kept@) =~= filtered(
                    views(anniversaries@).subrange(0, i as int),
                    self.now,
                    is_past,
                ),
            decreases n - i,
        {
            let a: &Anniversary = &anniversaries[i];
            let keep: bool = if is_past {
                a.date.lt(&self.now)
            } else {
                a.date.ge(&self.now)
            };
            let ghost prev = kept@;
            if keep {
                let copy: Anniversary = Anniversary {
                    name: a.name.clone(),
                    count: a.count,
                    unit: a.unit.clone(),
                    date: a.date,
                };
                assert(copy@ == a@);
                kept.push(copy);
                proof {
                    assert(views(kept@) =~= views(prev).push(a@));
                }
            }
            i = i + 1;
            proof {
                let vs = views(anniversaries@);
                assert(vs.subrange(0, i as int).drop_last() =~= vs.subrange(0, i as int - 1));
                assert(vs.subrange(0, i as int).last() == vs[i as int - 1]);
                assert(views(kept@) =~= filtered(vs.subrange(0, i as int), self.now, is_past));
            }
        }
        proof {
            assert(views(anniversaries@).subrange(0, n as int) =~= views(anniversaries@));
        }
        kept
    }

    /// The full run: generate all entries for `date` grouped by unit — all
    /// seconds entries, then all days entries, then all weeks entries, each
    /// group in the configured order — then, if a side is requested, keep
    /// only the entries on that side of the current instant.
    pub fn find_anniversaries_from_date(&self, date: Instant, is_past: Option<bool>) -> (r: Vec<
        Anniversary,
    >)
        requires
            self.wf(),
            date.wf(),
        ensures
            views(r@) == (match is_past {
                None => all_entries(date, self.fun_anniversaries_count@),
                Some(p) => filtered(
                    all_entries(date, self.fun_anniversaries_count@),
                    self.now,
                    p,
                ),
            }),
    {
        let mut anniversaries: Vec<Anniversary> = Vec::new();
        let mut seconds: Vec<Anniversary> = self.create_seconds_anniversaries_from_date(date);
        anniversaries.append(&mut seconds);

        let mut days: Vec<Anniversary> = self.create_days_anniversaries_from_date(date);
        anniversaries.append(&mut days);

        let mut weeks: Vec<Anniversary> = self.create_weeks_anniversaries_from_date(date);
        anniversaries.append(&mut weeks);

        proof {
            assert(views(anniversaries@) =~= all_entries(date, self.fun_anniversaries_count@));
        }
        if let Some(past) = is_past {
            anniversaries = self.filter_anniversaries(anniversaries, past);
        }
        anniversaries
    }
}

} // verus!

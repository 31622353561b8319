use crate::instant::Instant;
use vstd::prelude::*;

verus! {

/// The decimal digit `d` as a character.
pub open spec fn digit_char(d: int) -> char {
    if d == 0 {
        '0'
    } else if d == 1 {
        '1'
    } else if d == 2 {
        '2'
    } else if d == 3 {
        '3'
    } else if d == 4 {
        '4'
    } else if d == 5 {
        '5'
    } else if d == 6 {
        '6'
    } else if d == 7 {
        '7'
    } else if d == 8 {
        '8'
    } else {
        '9'
    }
}

/// The decimal rendering of `n`, most significant digit first, with no sign
/// and no leading zeros (`0` itself is the single character `'0'`).
pub open spec fn dec_str(n: nat) -> Seq<char>
    decreases n,
{
    if n < 10 {
        seq![digit_char(n as int)]
    } else {
        dec_str(n / 10).push(digit_char((n % 10) as int))
    }
}

/// The label of an anniversary: the decimal count, a space, and the unit
/// word, e.g. `"666 days"`.
pub open spec fn anniversary_name(count: int, unit: Seq<char>) -> Seq<char> {
    dec_str(count as nat) + seq![' '] + unit
}

/// Relies on std's `String::push`: appends the one character to the string.
#[verifier::external_body]
fn push_char(s: &mut String, c: char)
    ensures
        final(s)@ == old(s)@.push(c),
{
    s.push(c);
}

/// Relies on std's `String::push_str`: appends the string slice.
#[verifier::external_body]
fn push_str(s: &mut String, t: &str)
    ensures
        final(s)@ == old(s)@ + t@,
{
    s.push_str(t);
}

fn digit_to_char(d: u64) -> (c: char)
    requires
        d < 10,
    ensures
        c == digit_char(d as int),
{
    match d {
        0 => '0',
        1 => '1',
        2 => '2',
        3 => '3',
        4 => '4',
        5 => '5',
        6 => '6',
        7 => '7',
        8 => '8',
        _ => '9',
    }
}

/// Appends the decimal rendering of `n` to `s`.
fn push_dec(s: &mut String, n: u64)
    ensures
        final(s)@ == old(s)@ + dec_str(n as nat),
    decreases n,
{
    if n < 10 {
        let c: char = digit_to_char(n);
        push_char(s, c);
        assert(s@ =~= old(s)@ + dec_str(n as nat));
    } else {
        push_dec(s, n / 10);
        let c: char = digit_to_char(n % 10);
        push_char(s, c);
        assert(s@ =~= old(s)@ + dec_str(n as nat));
    }
}

/// Builds the label `"<count> <unit>"` for a non-negative count.
fn make_name(count: i64, unit: &str) -> (r: String)
    requires
        count >= 0,
    ensures
        r@ == anniversary_name(count as int, unit@),
{
    let mut s: String = String::new();
    push_dec(&mut s, count as u64);
    push_char(&mut s, ' ');
    push_str(&mut s, unit);
    assert(s@ =~= anniversary_name(count as int, unit@));
    s
}

/// The mathematical content of an anniversary entry: the views of its two
/// strings together with its plain fields.
pub ghost struct AnniversaryView {
    pub name: Seq<char>,
    pub count: int,
    pub unit: Seq<char>,
    pub date: Instant,
}

/// A single milestone entry: the date reached by adding `count` units to a
/// reference instant, labelled by a name derived from `count` and `unit`.
#[derive(Debug, Clone)]
pub struct Anniversary {
    pub name: String,
    pub count: i64,
    pub unit: String,
    pub date: Instant,
}

impl View for Anniversary {
    type V = AnniversaryView;

    open spec fn view(&self) -> AnniversaryView {
        AnniversaryView {
            name: self.name@,
            count: self.count as int,
            unit: self.unit@,
            date: self.date,
        }
    }
}

impl Anniversary {
    /// The entry for `count` seconds landing on `date`.
    pub fn new_seconds(count: i64, date: Instant) -> (r: Anniversary)
        requires
            count >= 0,
        ensures
            r@ == (AnniversaryView {
                name: anniversary_name(count as int, "seconds"@),
                count: count as int,
                unit: "seconds"@,
                date,
            }),
    {
        Anniversary { name: make_name(count, "seconds"), count, unit: "seconds".to_owned(), date }
    }

    /// The entry for `count` days landing on `date`.
    pub fn new_days(count: i64, date: Instant) -> (r: Anniversary)
        requires
            count >= 0,
        ensures
            r@ == (AnniversaryView {
                name: anniversary_name(count as int, "days"@),
                count: count as int,
                unit: "days"@,
                date,
            }),
    {
        Anniversary { name: make_name(count, "days"), count, unit: "days".to_owned(), date }
    }

    /// The entry for `count` weeks landing on `date`.
    pub fn new_weeks(count: i64, date: Instant) -> (r: Anniversary)
        requires
            count >= 0,
        ensures
            r@ == (AnniversaryView {
                name: anniversary_name(count as int, "weeks"@),
                count: count as int,
                unit: "weeks"@,
                date,
            }),
    {
        Anniversary { name: make_name(count, "weeks"), count, unit: "weeks".to_owned(), date }
    }
}

} // verus!

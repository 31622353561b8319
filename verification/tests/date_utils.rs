#![allow(non_snake_case)]

use funniversaries::date_utils;
use funniversaries::instant::Instant;

fn ymd_hms(y: u32, m: u32, d: u32, h: u32, mi: u32, s: u32) -> Instant {
    Instant::from_ymd_hms(y, m, d, h, mi, s).unwrap()
}

#[test]
fn dateUtils_adding_seconds() {
    //given

    //2010-01-02T03:04:05
    let date_start = ymd_hms(2010, 1, 2, 3, 4, 5);

    //2041-09-10T04:50:45
    let date_expected_1_000_d_000_000_s = ymd_hms(2041, 9, 10, 4, 50, 45);

    //when
    let vec = date_utils::create_seconds_anniversaries_from_date(date_start);

    //then
    assert_eq!(vec[0].date, date_expected_1_000_d_000_000_s);
}

#[test]
fn dateUtils_adding_days() {
    //given

    //2010-01-02T03:04:05
    let date_start = ymd_hms(2010, 1, 2, 3, 4, 5);

    //Sunday, 30 October 2011, 03:04:05
    let date_expected_666_d = ymd_hms(2011, 10, 30, 3, 4, 5);
    //Friday, 28 September 2012, 03:04:05
    let date_expected_1_000_d = ymd_hms(2012, 9, 28, 3, 4, 5);
    //Wednesday, 20 May 2037, 03:04:05
    let date_expected_10_000_d = ymd_hms(2037, 5, 20, 3, 4, 5);

    //when
    let vec = date_utils::create_days_anniversaries_from_date(date_start);

    //then
    assert_eq!(vec[0].date, date_expected_666_d);
    assert_eq!(vec[1].date, date_expected_1_000_d);
    assert_eq!(vec[2].date, date_expected_10_000_d);
}

#[test]
fn dateUtils_adding_weeks() {
    //given

    //2010-01-02T03:04:05
    let date_start = ymd_hms(2010, 1, 2, 3, 4, 5);

    //Saturday, 8 October 2022, 03:04:05
    let date_expected_666_w = ymd_hms(2022, 10, 8, 3, 4, 5);
    //Saturday, 3 March 2029, 03:04:05
    let date_expected_1_000_w = ymd_hms(2029, 3, 3, 3, 4, 5);

    //when
    let vec = date_utils::create_weeks_anniversaries_from_date(date_start);

    //then
    assert_eq!(vec[0].date, date_expected_666_w);
    assert_eq!(vec[1].date, date_expected_1_000_w);
}

#[test]
fn finding_anniversaries_from_date() {
    //given

    //2010-01-02T03:04:05
    let date_start = ymd_hms(2010, 1, 2, 3, 4, 5);

    //2041-09-10T04:50:45
    let date_expected_1_000_d_000_000_s = ymd_hms(2041, 9, 10, 4, 50, 45);

    //Sunday, 30 October 2011, 03:04:05
    let date_expected_666_d = ymd_hms(2011, 10, 30, 3, 4, 5);
    //Friday, 28 September 2012, 03:04:05
    let date_expected_1_000_d = ymd_hms(2012, 9, 28, 3, 4, 5);
    //Wednesday, 20 May 2037, 03:04:05
    let date_expected_10_000_d = ymd_hms(2037, 5, 20, 3, 4, 5);

    //Saturday, 8 October 2022, 03:04:05
    let date_expected_666_w = ymd_hms(2022, 10, 8, 3, 4, 5);
    //Saturday, 3 March 2029, 03:04:05
    let date_expected_1_000_w = ymd_hms(2029, 3, 3, 3, 4, 5);

    //when
    let vec = date_utils::find_anniversaries_from_date(date_start);

    //then
    assert_eq!(vec[0].date, date_expected_1_000_d_000_000_s);

    assert_eq!(vec[1].date, date_expected_666_d);
    assert_eq!(vec[2].date, date_expected_1_000_d);
    assert_eq!(vec[3].date, date_expected_10_000_d);

    assert_eq!(vec[4].date, date_expected_666_w);
    assert_eq!(vec[5].date, date_expected_1_000_w);
}

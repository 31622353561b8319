use funniversaries::date_service::DateService;
use funniversaries::entities::anniversary::Anniversary;
use funniversaries::instant::Instant;

fn ymd_hms(y: u32, m: u32, d: u32, h: u32, mi: u32, s: u32) -> Instant {
    Instant::from_ymd_hms(y, m, d, h, mi, s).unwrap()
}

fn test_high() -> Vec<i64> {
    vec![1_000_000_000]
}

fn test_medium() -> Vec<i64> {
    vec![666, 1_000, 10_000]
}

fn test_low() -> Vec<i64> {
    vec![666, 1_000]
}

fn test_all() -> Vec<i64> {
    vec![666, 1_000, 10_000, 1_000_000_000]
}

#[test]
fn date_service_adding_seconds() {
    //given
    let now = ymd_hms(2020, 1, 2, 3, 4, 5);
    let date_service = DateService { now, fun_anniversaries_count: test_high() };

    //2010-01-02T03:04:05
    let date_start = ymd_hms(2010, 1, 2, 3, 4, 5);

    //2041-09-10T04:50:45
    let date_expected_1_000_d_000_000_s = ymd_hms(2041, 9, 10, 4, 50, 45);

    //when
    let vec = date_service.create_seconds_anniversaries_from_date(date_start);

    //then
    assert_eq!(vec[0].date, date_expected_1_000_d_000_000_s);
}

#[test]
fn date_service_adding_days() {
    //given
    let now = ymd_hms(2020, 1, 2, 3, 4, 5);
    let date_service = DateService { now, fun_anniversaries_count: test_medium() };

    //2010-01-02T03:04:05
    let date_start = ymd_hms(2010, 1, 2, 3, 4, 5);

    //Sunday, 30 October 2011, 03:04:05
    let date_expected_666_d = ymd_hms(2011, 10, 30, 3, 4, 5);
    //Friday, 28 September 2012, 03:04:05
    let date_expected_1_000_d = ymd_hms(2012, 9, 28, 3, 4, 5);
    //Wednesday, 20 May 2037, 03:04:05
    let date_expected_10_000_d = ymd_hms(2037, 5, 20, 3, 4, 5);

    //when
    let vec = date_service.create_days_anniversaries_from_date(date_start);

    //then
    assert_eq!(vec[0].date, date_expected_666_d);
    assert_eq!(vec[1].date, date_expected_1_000_d);
    assert_eq!(vec[2].date, date_expected_10_000_d);
}

#[test]
fn date_service_adding_weeks() {
    //given
    let now = ymd_hms(2020, 1, 2, 3, 4, 5);
    let date_service = DateService { now, fun_anniversaries_count: test_low() };

    //2010-01-02T03:04:05
    let date_start = ymd_hms(2010, 1, 2, 3, 4, 5);

    //Saturday, 8 October 2022, 03:04:05
    let date_expected_666_w = ymd_hms(2022, 10, 8, 3, 4, 5);
    //Saturday, 3 March 2029, 03:04:05
    let date_expected_1_000_w = ymd_hms(2029, 3, 3, 3, 4, 5);

    //when
    let vec = date_service.create_weeks_anniversaries_from_date(date_start);

    //then
    assert_eq!(vec[0].date, date_expected_666_w);
    assert_eq!(vec[1].date, date_expected_1_000_w);
}

#[test]
fn filter_anniversaries_in_future() {
    //given
    let date_now = ymd_hms(2020, 1, 2, 3, 4, 5);
    let date_service = DateService { now: date_now, fun_anniversaries_count: test_all() };
    let mut anniversaries: Vec<Anniversary> = vec![];

    //2041-09-10T04:50:45
    let date_expected_1_000_d_000_000_s = ymd_hms(2041, 9, 10, 4, 50, 45);
    anniversaries.push(Anniversary::new_seconds(1, date_expected_1_000_d_000_000_s));

    //Sunday, 30 October 2011, 03:04:05
    let date_expected_666_d = ymd_hms(2011, 10, 30, 3, 4, 5);
    anniversaries.push(Anniversary::new_seconds(1, date_expected_666_d));

    //Friday, 28 September 2012, 03:04:05
    let date_expected_1_000_d = ymd_hms(2012, 9, 28, 3, 4, 5);
    anniversaries.push(Anniversary::new_seconds(1, date_expected_1_000_d));

    //Wednesday, 20 May 2037, 03:04:05
    let date_expected_10_000_d = ymd_hms(2037, 5, 20, 3, 4, 5);
    anniversaries.push(Anniversary::new_seconds(1, date_expected_10_000_d));

    //Saturday, 8 October 2022, 03:04:05
    let date_expected_666_w = ymd_hms(2022, 10, 8, 3, 4, 5);
    anniversaries.push(Anniversary::new_seconds(1, date_expected_666_w));

    //Saturday, 3 March 2029, 03:04:05
    let date_expected_1_000_w = ymd_hms(2029, 3, 3, 3, 4, 5);
    anniversaries.push(Anniversary::new_seconds(1, date_expected_1_000_w));

    //when
    let vec = date_service.filter_anniversaries(anniversaries, false);

    //then
    assert_eq!(vec[0].date, date_expected_1_000_d_000_000_s);
    assert_eq!(vec[1].date, date_expected_10_000_d);
    assert_eq!(vec[2].date, date_expected_666_w);
    assert_eq!(vec[3].date, date_expected_1_000_w);
}

#[test]
fn filter_anniversaries_in_past() {
    //given
    let date_now = ymd_hms(2020, 1, 2, 3, 4, 5);
    let date_service = DateService { now: date_now, fun_anniversaries_count: test_all() };
    let mut anniversaries: Vec<Anniversary> = vec![];

    //2041-09-10T04:50:45
    let date_expected_1_000_d_000_000_s = ymd_hms(2041, 9, 10, 4, 50, 45);
    anniversaries.push(Anniversary::new_seconds(1, date_expected_1_000_d_000_000_s));

    //Sunday, 30 October 2011, 03:04:05
    let date_expected_666_d = ymd_hms(2011, 10, 30, 3, 4, 5);
    anniversaries.push(Anniversary::new_seconds(1, date_expected_666_d));

    //Friday, 28 September 2012, 03:04:05
    let date_expected_1_000_d = ymd_hms(2012, 9, 28, 3, 4, 5);
    anniversaries.push(Anniversary::new_seconds(1, date_expected_1_000_d));

    //Wednesday, 20 May 2037, 03:04:05
    let date_expected_10_000_d = ymd_hms(2037, 5, 20, 3, 4, 5);
    anniversaries.push(Anniversary::new_seconds(1, date_expected_10_000_d));

    //Saturday, 8 October 2022, 03:04:05
    let date_expected_666_w = ymd_hms(2022, 10, 8, 3, 4, 5);
    anniversaries.push(Anniversary::new_seconds(1, date_expected_666_w));

    //Saturday, 3 March 2029, 03:04:05
    let date_expected_1_000_w = ymd_hms(2029, 3, 3, 3, 4, 5);
    anniversaries.push(Anniversary::new_seconds(1, date_expected_1_000_w));

    //when
    let vec = date_service.filter_anniversaries(anniversaries, true);

    //then
    assert_eq!(vec[0].date, date_expected_666_d);
    assert_eq!(vec[1].date, date_expected_1_000_d);
}

#[test]
fn finding_anniversaries_from_date_all() {
    //given
    let date_now = ymd_hms(2020, 1, 2, 3, 4, 5);
    let date_service = DateService { now: date_now, fun_anniversaries_count: test_all() };

    //2010-01-02T03:04:05
    let date_start = ymd_hms(2010, 1, 2, 3, 4, 5);

    //when
    let vec = date_service.find_anniversaries_from_date(date_start, None);

    //then
    assert_eq!(vec.len(), 10);
}

#[test]
fn finding_anniversaries_from_date_past() {
    //given
    let date_now = ymd_hms(2020, 1, 2, 3, 4, 5);
    let date_service = DateService { now: date_now, fun_anniversaries_count: test_all() };

    //2010-01-02T03:04:05
    let date_start = ymd_hms(2010, 1, 2, 3, 4, 5);

    //when
    let vec = date_service.find_anniversaries_from_date(date_start, Some(true));

    //then
    vec.into_iter().for_each(|a| assert_eq!(a.date.lt(&date_now), true));
}

#[test]
fn finding_anniversaries_from_date_future() {
    //given
    let date_now = ymd_hms(2020, 1, 2, 3, 4, 5);
    let date_service = DateService { now: date_now, fun_anniversaries_count: test_all() };

    //2010-01-02T03:04:05
    let date_start = ymd_hms(2010, 1, 2, 3, 4, 5);

    //when
    let vec = date_service.find_anniversaries_from_date(date_start, Some(false));

    //then
    vec.into_iter().for_each(|a| assert_eq!(date_now.lt(&a.date), true));
}

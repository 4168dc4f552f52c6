use unbusy::Date;

#[test]
fn date_of_the_calendar() {
    let d = Date::from_ymd_opt(2020, 5, 24).unwrap();
    assert_eq!(d.year(), 2020);
    assert_eq!(d.month(), 5);
    assert_eq!(d.day(), 24);
}

#[test]
fn date_that_the_calendar_lacks() {
    assert!(Date::from_ymd_opt(2023, 4, 31).is_none());
    assert!(Date::from_ymd_opt(2015, 0, 14).is_none());
    assert!(Date::from_ymd_opt(2015, 13, 14).is_none());
    assert!(Date::from_ymd_opt(2015, 1, 0).is_none());
    assert!(Date::from_ymd_opt(2015, 1, 32).is_none());
    assert!(Date::from_ymd_opt(2015, 2, 29).is_none());
    assert!(Date::from_ymd_opt(2015, u32::MAX, u32::MAX).is_none());
}

#[test]
fn date_in_leap_years() {
    assert!(Date::from_ymd_opt(2020, 2, 29).is_some());
    assert!(Date::from_ymd_opt(2000, 2, 29).is_some());
    assert!(Date::from_ymd_opt(1900, 2, 29).is_none());
    assert!(Date::from_ymd_opt(2100, 2, 29).is_none());
    assert!(Date::from_ymd_opt(-4, 2, 29).is_some());
    assert!(Date::from_ymd_opt(0, 2, 29).is_some());
    assert!(Date::from_ymd_opt(-100, 2, 29).is_none());
    assert!(Date::from_ymd_opt(-400, 2, 29).is_some());
}

#[test]
fn date_month_lengths() {
    let lengths = [31u32, 28, 31, 30, 31, 30, 31, 31, 30, 31, 30, 31];
    for (i, len) in lengths.iter().enumerate() {
        let month = i as u32 + 1;
        assert!(Date::from_ymd_opt(2021, month, *len).is_some());
        assert!(Date::from_ymd_opt(2021, month, *len + 1).is_none());
    }
}

#[test]
fn date_years_in_range() {
    assert!(Date::from_ymd_opt(262142, 12, 31).is_some());
    assert!(Date::from_ymd_opt(262143, 1, 1).is_none());
    assert!(Date::from_ymd_opt(-262143, 1, 1).is_some());
    assert!(Date::from_ymd_opt(-262144, 12, 31).is_none());
    assert!(Date::from_ymd_opt(400000, 1, 1).is_none());
    assert!(Date::from_ymd_opt(-400000, 1, 1).is_none());
    assert!(Date::from_ymd_opt(i32::MAX, 1, 1).is_none());
    assert!(Date::from_ymd_opt(i32::MIN, 1, 1).is_none());
}

#[test]
fn date_order() {
    let a = Date::from_ymd_opt(2020, 12, 20).unwrap();
    let b = Date::from_ymd_opt(2021, 1, 2).unwrap();
    let c = Date::from_ymd_opt(2021, 1, 3).unwrap();
    let d = Date::from_ymd_opt(2021, 2, 1).unwrap();
    assert!(a.le(a));
    assert!(a.le(b) && !b.le(a));
    assert!(b.le(c) && !c.le(b));
    assert!(c.le(d) && !d.le(c));
    assert!(a.le(d) && !d.le(a));
    assert!(a < b && b < c && c < d);
}

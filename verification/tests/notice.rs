use unbusy::{Date, LocalDateTime, Notice, Section, Thirty, TimeScope, WhoScope};

#[test]
fn who_scope_default_is_everyone() {
    let scope = WhoScope::default();
    assert_eq!(scope, WhoScope { section: None, thirty: Thirty(0) });
    assert!(scope.is_default());
}

#[test]
fn who_scope_that_names_someone_is_not_default() {
    assert!(!WhoScope { section: Some(Section::A), thirty: Thirty(0) }.is_default());
    assert!(!WhoScope { section: None, thirty: Thirty(1) }.is_default());
    assert!(!WhoScope { section: None, thirty: Thirty(2) }.is_default());
    assert!(!WhoScope { section: Some(Section::C), thirty: Thirty(2) }.is_default());
}

#[test]
fn notice_values_compare_by_their_fields() {
    let date = Date::from_ymd_opt(2020, 3, 1).unwrap();
    let off = Notice::ClassOff {
        date,
        time: TimeScope::AllDay(None),
        for_whom: WhoScope::default(),
        day_off: true,
    };
    assert_eq!(off.clone(), off);
    let other = Notice::ClassOff {
        date,
        time: TimeScope::Period(3),
        for_whom: WhoScope::default(),
        day_off: true,
    };
    assert_ne!(off, other);
    let extra = Notice::ExtraClass {
        date,
        time: LocalDateTime { timestamp: 1_583_053_200, nanos: 0 },
        for_whom: WhoScope { section: Some(Section::B), thirty: Thirty(1) },
    };
    assert_ne!(extra, off);
}

use unbusy::Day;

#[test]
fn day_successor_goes_round() {
    assert_eq!(Day::A.succ(), Day::B);
    assert_eq!(Day::B.succ(), Day::C);
    assert_eq!(Day::C.succ(), Day::D);
    assert_eq!(Day::D.succ(), Day::E);
    assert_eq!(Day::E.succ(), Day::A);
}

#[test]
fn day_five_successors_return() {
    for day in [Day::A, Day::B, Day::C, Day::D, Day::E] {
        assert_eq!(day.succ().succ().succ().succ().succ(), day);
    }
}

#[test]
fn day_succ_mut_moves_and_returns() {
    let mut day = Day::D;
    assert_eq!(day.succ_mut(), Day::E);
    assert_eq!(day, Day::E);
    assert_eq!(day.succ_mut(), Day::A);
    assert_eq!(day, Day::A);
}

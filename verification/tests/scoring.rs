use toy_hover_battle::scoring::{try_launch_missile, Scores, MAX_MISSILES};

#[test]
fn a_kill_scores_for_the_survivor() {
    let mut s = Scores::new();
    s.record_kill(0);
    assert_eq!(s.points, [0, 1]);
    s.record_kill(1);
    s.record_kill(1);
    assert_eq!(s.points, [2, 1]);
}

#[test]
fn two_rockets_per_life() {
    let mut count = MAX_MISSILES;
    assert!(!try_launch_missile(&mut count, false), "not ready: no launch");
    assert_eq!(count, 2);
    assert!(try_launch_missile(&mut count, true));
    assert!(try_launch_missile(&mut count, true));
    assert!(!try_launch_missile(&mut count, true), "out of rockets");
    assert_eq!(count, 0);
}

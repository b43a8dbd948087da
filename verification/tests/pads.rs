use toy_hover_battle::pads::{axis, DpadEdge, MenuInput, PadSlots};

fn levels(up: bool, a: bool, start: bool) -> DpadEdge {
    DpadEdge { up, a, start, ..DpadEdge::default() }
}

#[test]
fn accumulate_registers_only_rising_edges() {
    let mut m = MenuInput::default();
    m.accumulate(levels(false, false, false), levels(true, true, true));
    assert!(m.up && m.confirm && m.back);
    assert!(!m.down && !m.left && !m.right);

    let mut held = MenuInput::default();
    held.accumulate(levels(true, true, true), levels(true, true, true));
    assert!(!held.up && !held.confirm && !held.back, "a held button is not a new press");
}

#[test]
fn either_face_button_confirms() {
    let mut m = MenuInput::default();
    let now = DpadEdge { b: true, ..DpadEdge::default() };
    m.accumulate(DpadEdge::default(), now);
    assert!(m.confirm);
}

#[test]
fn axis_is_the_difference_of_two_buttons() {
    assert_eq!(axis(false, true), 1);
    assert_eq!(axis(true, false), -1);
    assert_eq!(axis(true, true), 0);
    assert_eq!(axis(false, false), 0);
}

#[test]
fn pads_fill_free_slots_in_order() {
    let mut p = PadSlots::new();
    assert_eq!(p.connect(7), Some(0));
    assert_eq!(p.connect(7), None, "an already bound pad is not bound twice");
    assert_eq!(p.connect(9), Some(1));
    assert_eq!(p.connect(11), None, "both slots taken");
    assert_eq!(p.disconnect(7), [true, false]);
    assert_eq!(p.slot(0), None);
    assert_eq!(p.connect(11), Some(0));
    assert_eq!(p.slot(1), Some(9));
}

#[test]
fn a_pad_that_reconnects_gets_its_slot_back() {
    let mut p = PadSlots::new();
    assert_eq!(p.connect(4), Some(0));
    assert_eq!(p.disconnect(4), [true, false]);
    assert_eq!(p.slot(0), None);
    assert_eq!(p.connect(4), Some(0));
    assert_eq!(p.slot(0), Some(4));
    assert_eq!(p.slot(1), None);
}

#[test]
fn rocket_presses_are_queued_and_drained_once() {
    let mut p = PadSlots::new();
    p.connect(3);
    p.rocket_pressed(3);
    p.rocket_pressed(5);
    assert!(p.take_rocket(0));
    assert!(!p.take_rocket(0));
    assert!(!p.take_rocket(1));
    p.rocket_pressed(3);
    p.reset_match_input();
    assert!(!p.take_rocket(0), "a press queued in a menu is discarded");
}

#[test]
fn menu_input_skips_unassigned_slots() {
    let mut p = PadSlots::new();
    p.connect(1);
    let down = [levels(true, false, false), levels(true, true, false)];
    let m = p.menu_input(down);
    assert!(m.up);
    assert!(!m.confirm, "slot 1 has no pad");
    let m = p.menu_input(down);
    assert!(!m.up, "still held on the next frame");
    assert!(p.start_held([true, true]));
    assert!(!p.start_held([false, true]));
}

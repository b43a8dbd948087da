use toy_hover_battle::control::{AiDifficulty, ControllerKind};
use toy_hover_battle::layout::{GameSpeed, Layout, VH, VW};

fn layout_for(kinds: [ControllerKind; 2]) -> Layout {
    Layout::for_controllers(kinds)
}

#[test]
fn one_human_gets_the_whole_window() {
    let ai = ControllerKind::Ai(AiDifficulty::Normal);
    assert!(layout_for([ControllerKind::Human, ai]) == Layout::Single { viewer: 0 });
    assert!(layout_for([ai, ControllerKind::Human]) == Layout::Single { viewer: 1 });
}

#[test]
fn two_humans_or_no_humans_stay_split() {
    let ai = ControllerKind::Ai(AiDifficulty::Hard);
    assert!(layout_for([ControllerKind::Human, ControllerKind::Human]) == Layout::Split);
    assert!(layout_for([ai, ai]) == Layout::Split);
}

#[test]
fn single_viewport_is_twice_as_wide_as_a_split_half() {
    let (w, h) = Layout::Split.view_size();
    assert_eq!((w as f32, h as f32), (VW as f32, VH as f32));
    let (w, h) = Layout::Single { viewer: 0 }.view_size();
    assert_eq!((w as f32, h as f32), (VW as f32 * 2.0, VH as f32));
}

#[test]
fn speed_cycles_and_scales() {
    assert_eq!(GameSpeed::Slow.next(), GameSpeed::Normal);
    assert_eq!(GameSpeed::Normal.next(), GameSpeed::Fast);
    assert_eq!(GameSpeed::Fast.next(), GameSpeed::Slow);
    assert_eq!(GameSpeed::Slow.prev(), GameSpeed::Fast);
    assert_eq!(GameSpeed::Fast.prev(), GameSpeed::Normal);
    assert_eq!(GameSpeed::Slow.scale_percent(), 75);
    assert_eq!(GameSpeed::Normal.scale_percent(), 100);
    assert_eq!(GameSpeed::Fast.scale_percent(), 130);
    assert_eq!(GameSpeed::Fast.label(), "Fast");
    assert_eq!(GameSpeed::Slow.label(), "Slow");
}

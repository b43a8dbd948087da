use toy_hover_battle::control::{AiDifficulty, ControllerKind};
use toy_hover_battle::layout::GameSpeed;
use toy_hover_battle::menu::{AppScreen, Click, End, Flow, Keys, Menu, SetupAction};
use toy_hover_battle::pads::MenuInput;
use toy_hover_battle::sfx::SfxEvent;

fn no_keys() -> Keys {
    Keys {
        up: false,
        down: false,
        left: false,
        right: false,
        enter: false,
        escape: false,
        backspace: false,
        h: false,
    }
}

fn pad() -> MenuInput {
    MenuInput::default()
}

#[test]
fn menu_starts_on_the_start_screen() {
    let m = Menu::new();
    assert_eq!(m.screen, AppScreen::Startup);
    assert_eq!(m.menu_sel, 0);
    assert_eq!(m.setup_sel, 3);
    assert_eq!(m.setup_kinds, [ControllerKind::Human, ControllerKind::Ai(AiDifficulty::Normal)]);
    assert_eq!(m.setup_speed, GameSpeed::Normal);
}

#[test]
fn start_menu_selection_clamps_and_only_sounds_on_change() {
    let mut m = Menu::new();
    let (s, f) = m.keys(Keys { up: true, ..no_keys() }, pad());
    assert!(s.is_empty());
    assert_eq!(f, Flow::Draw { start: false, back: false });
    let (s, _) = m.keys(Keys { down: true, ..no_keys() }, pad());
    assert_eq!(s, vec![SfxEvent::MenuMove]);
    m.keys(Keys { down: true, ..no_keys() }, pad());
    let (s, _) = m.keys(Keys { down: true, ..no_keys() }, pad());
    assert!(s.is_empty());
    assert_eq!(m.menu_sel, 2);
}

#[test]
fn escape_on_the_start_menu_quits() {
    let mut m = Menu::new();
    let (s, f) = m.keys(Keys { escape: true, ..no_keys() }, pad());
    assert_eq!(s, vec![SfxEvent::MenuConfirm]);
    assert_eq!(f, Flow::Quit);
}

#[test]
fn enter_on_new_game_opens_setup_focused_on_start() {
    let mut m = Menu::new();
    let (s, f) = m.keys(Keys { enter: true, ..no_keys() }, pad());
    assert_eq!(s, vec![SfxEvent::MenuConfirm]);
    assert_eq!(f, Flow::NextFrame);
    assert_eq!(m.screen, AppScreen::Setup);
    assert_eq!(m.setup_sel, 3);
}

#[test]
fn enter_on_quit_quits_and_h_opens_help() {
    let mut m = Menu::new();
    m.keys(Keys { down: true, ..no_keys() }, pad());
    m.keys(Keys { down: true, ..no_keys() }, pad());
    let (_, f) = m.keys(Keys { enter: true, ..no_keys() }, pad());
    assert_eq!(f, Flow::Quit);
    let mut m = Menu::new();
    let (_, f) = m.keys(Keys { h: true, ..no_keys() }, pad());
    assert_eq!(f, Flow::NextFrame);
    assert_eq!(m.screen, AppScreen::Help);
    let (s, f) = m.keys(Keys { backspace: true, ..no_keys() }, pad());
    assert!(s.is_empty());
    assert_eq!(f, Flow::Draw { start: false, back: true });
    assert_eq!(m.screen, AppScreen::Help, "the help screen is still drawn this frame");
    let (s, e) = m.click(Click::Nothing, false, true);
    assert_eq!(s, vec![SfxEvent::MenuConfirm]);
    assert_eq!(e, End::Stay);
    assert_eq!(m.screen, AppScreen::Startup);
}

#[test]
fn setup_rows_cycle_with_the_arrows() {
    let mut m = Menu::new();
    m.keys(Keys { enter: true, ..no_keys() }, pad());
    // Focus Start (3) → up three times to player 1's row.
    for _ in 0..3 {
        m.keys(Keys { up: true, ..no_keys() }, pad());
    }
    assert_eq!(m.setup_sel, 0);
    let (s, _) = m.keys(Keys { right: true, ..no_keys() }, pad());
    assert_eq!(s, vec![SfxEvent::MenuMove]);
    assert_eq!(m.setup_kinds[0], ControllerKind::Ai(AiDifficulty::Easy));
    m.keys(Keys { left: true, ..no_keys() }, pad());
    m.keys(Keys { left: true, ..no_keys() }, pad());
    assert_eq!(m.setup_kinds[0], ControllerKind::Ai(AiDifficulty::Hard));
    let (s, _) = m.keys(Keys { left: true, right: true, ..no_keys() }, pad());
    assert_eq!(s.len(), 2);
    assert_eq!(m.setup_kinds[0], ControllerKind::Ai(AiDifficulty::Hard));
    // Speed row.
    m.keys(Keys { down: true, ..no_keys() }, pad());
    m.keys(Keys { down: true, ..no_keys() }, pad());
    m.keys(Keys { right: true, ..no_keys() }, pad());
    assert_eq!(m.setup_speed, GameSpeed::Fast);
}

#[test]
fn setup_start_begins_the_match_with_the_chosen_setup() {
    let mut m = Menu::new();
    m.keys(Keys { enter: true, ..no_keys() }, pad());
    let (s, f) = m.keys(Keys { enter: true, ..no_keys() }, pad());
    assert!(s.is_empty());
    assert_eq!(f, Flow::Draw { start: true, back: false });
    let (s, e) = m.click(Click::Nothing, true, false);
    assert_eq!(s, vec![SfxEvent::MenuConfirm]);
    assert_eq!(e, End::StartMatch);
    assert_eq!(m.screen, AppScreen::Playing);
    assert_eq!(m.setup_kinds, [ControllerKind::Human, ControllerKind::Ai(AiDifficulty::Normal)]);
    let s = m.leave_match();
    assert_eq!(s, vec![SfxEvent::MenuConfirm]);
    assert_eq!(m.screen, AppScreen::Startup);
    assert_eq!(m.menu_sel, 0);
}

#[test]
fn setup_clicks_cycle_rows_and_back_out() {
    let mut m = Menu::new();
    m.click(Click::StartupButton(0), false, false);
    assert_eq!(m.screen, AppScreen::Setup);
    let (s, e) = m.click(Click::Setup(SetupAction::Cycle(1)), false, false);
    assert_eq!(s, vec![SfxEvent::MenuMove]);
    assert_eq!(e, End::Stay);
    assert_eq!(m.setup_kinds[1], ControllerKind::Ai(AiDifficulty::Hard));
    m.click(Click::Setup(SetupAction::CycleSpeed), false, false);
    assert_eq!(m.setup_speed, GameSpeed::Fast);
    let (_, f) = m.keys(Keys { escape: true, ..no_keys() }, pad());
    assert_eq!(f, Flow::Draw { start: false, back: true });
    let (s, e) = m.click(Click::Setup(SetupAction::Idle), false, true);
    assert_eq!(s, vec![SfxEvent::MenuConfirm]);
    assert_eq!(e, End::Stay);
    assert_eq!(m.screen, AppScreen::Startup);
}

#[test]
fn start_menu_quit_button_quits() {
    let mut m = Menu::new();
    let (s, e) = m.click(Click::StartupButton(2), false, false);
    assert_eq!(s, vec![SfxEvent::MenuConfirm]);
    assert_eq!(e, End::Quit);
    let mut m = Menu::new();
    m.click(Click::StartupButton(1), false, false);
    assert_eq!(m.screen, AppScreen::Help);
    m.click(Click::HelpBack, false, false);
    assert_eq!(m.screen, AppScreen::Startup);
}

#[test]
fn pad_gestures_drive_the_menu_like_keys() {
    let mut m = Menu::new();
    let (_, f) = m.keys(no_keys(), MenuInput { confirm: true, ..MenuInput::default() });
    assert_eq!(f, Flow::NextFrame);
    assert_eq!(m.screen, AppScreen::Setup);
    let (_, f) = m.keys(no_keys(), MenuInput { back: true, ..MenuInput::default() });
    assert_eq!(f, Flow::Draw { start: false, back: true });
}

//! The front-end screens (start menu, match setup, help, the match itself)
//! as a state machine. Each frame the caller feeds the keys pressed and the
//! pad's menu gestures to [`Menu::keys`]; unless that asks to skip drawing,
//! it draws the current screen and feeds the click it saw to
//! [`Menu::click`]. Both return the sounds to play, in order.
use vstd::prelude::*;
use crate::control::ControllerKind;
use crate::layout::GameSpeed;
use crate::pads::MenuInput;
use crate::sfx::SfxEvent;

verus! {

#[derive(Clone, Copy, PartialEq, Eq, Debug, Structural)]
pub enum AppScreen {
    Startup,
    Setup,
    Help,
    Playing,
}

/// Keys that went down this frame.
#[derive(Clone, Copy, PartialEq, Eq, Debug, Structural)]
pub struct Keys {
    pub up: bool,
    pub down: bool,
    pub left: bool,
    pub right: bool,
    pub enter: bool,
    pub escape: bool,
    pub backspace: bool,
    pub h: bool,
}

/// What a mouse click on the setup screen asks for.
#[derive(Clone, Copy, PartialEq, Eq, Debug, Structural)]
pub enum SetupAction {
    /// No click on the setup screen.
    Idle,
    Start,
    Back,
    /// Cycle player row `i`'s controller kind.
    Cycle(usize),
    /// Cycle the match-speed row.
    CycleSpeed,
}

/// The click seen while drawing the current screen.
#[derive(Clone, Copy, PartialEq, Eq, Debug, Structural)]
pub enum Click {
    Nothing,
    /// Start-menu button `i`: New Game, Help, Quit.
    StartupButton(usize),
    Setup(SetupAction),
    /// The help screen's Back button.
    HelpBack,
}

/// After the keys: leave the program, go straight to the next frame without
/// drawing, or draw the screen (carrying the setup screen's start/back
/// requests into [`Menu::click`]).
#[derive(Clone, Copy, PartialEq, Eq, Debug, Structural)]
pub enum Flow {
    Quit,
    NextFrame,
    Draw { start: bool, back: bool },
}

/// After the click: stay, leave the program, or begin a match with the
/// chosen setup.
#[derive(Clone, Copy, PartialEq, Eq, Debug, Structural)]
pub enum End {
    Stay,
    Quit,
    StartMatch,
}

/// Number of start-menu buttons; the last is Quit.
pub const STARTUP_ITEMS: usize = 3;
/// Setup-screen rows: two player rows, the speed row, Start, Back.
pub const SETUP_ITEMS: usize = 5;
/// Setup row that starts the match.
pub const SETUP_START: usize = 3;

#[derive(Clone, Copy, Debug)]
pub struct Menu {
    pub screen: AppScreen,
    /// Keyboard-selected start-menu button.
    pub menu_sel: usize,
    /// Keyboard focus on the setup screen.
    pub setup_sel: usize,
    pub setup_kinds: [ControllerKind; 2],
    pub setup_speed: GameSpeed,
}

pub open spec fn sel_up(sel: usize) -> usize {
    if sel > 0 { (sel - 1) as usize } else { 0 }
}

pub open spec fn sel_down(sel: usize, last: usize) -> usize {
    if sel + 1 < last { (sel + 1) as usize } else { last }
}

/// Moves a selection one up and/or one down, with a move sound for each
/// step that actually changed it.
pub open spec fn navigate(sel: usize, last: usize, up: bool, down: bool) -> (usize, Seq<SfxEvent>) {
    let s1 = if up { sel_up(sel) } else { sel };
    let snd1 = if up && s1 != sel { seq![SfxEvent::MenuMove] } else { Seq::empty() };
    let s2 = if down { sel_down(s1, last) } else { s1 };
    let snd2 = if down && s2 != s1 { seq![SfxEvent::MenuMove] } else { Seq::empty() };
    (s2, snd1 + snd2)
}

pub open spec fn with_kind(kinds: [ControllerKind; 2], i: int, k: ControllerKind) -> [ControllerKind; 2] {
    if i == 0 { [k, kinds[1]] } else { [kinds[0], k] }
}

impl Menu {
    pub open spec fn wf(self) -> bool {
        self.menu_sel < STARTUP_ITEMS && self.setup_sel < SETUP_ITEMS
    }

    /// The start menu's keyboard handling.
    pub open spec fn startup_keys(self, k: Keys, pad: MenuInput) -> (Menu, Seq<SfxEvent>, Flow) {
        let (sel, moved) = navigate(self.menu_sel, (STARTUP_ITEMS - 1) as usize, k.up || pad.up, k.down || pad.down);
        let m = Menu { menu_sel: sel, ..self };
        let confirm = moved.push(SfxEvent::MenuConfirm);
        if k.escape || pad.back {
            (m, confirm, Flow::Quit)
        } else if k.h {
            (Menu { screen: AppScreen::Help, ..m }, confirm, Flow::NextFrame)
        } else if k.enter || pad.confirm {
            if sel == 0 {
                (Menu { screen: AppScreen::Setup, setup_sel: SETUP_START, ..m }, confirm, Flow::NextFrame)
            } else if sel == 1 {
                (Menu { screen: AppScreen::Help, ..m }, confirm, Flow::NextFrame)
            } else {
                (m, confirm, Flow::Quit)
            }
        } else {
            (m, moved, Flow::Draw { start: false, back: false })
        }
    }

    /// The setup screen's left/right arrows on the focused row.
    pub open spec fn setup_arrows(self, right: bool, left: bool) -> (Menu, Seq<SfxEvent>) {
        let i = self.setup_sel as int;
        if self.setup_sel < 2 {
            let k1 = if right { self.setup_kinds[i].cycle_next() } else { self.setup_kinds[i] };
            let k2 = if left { k1.cycle_prev() } else { k1 };
            let snd = (if right { seq![SfxEvent::MenuMove] } else { Seq::empty() })
                + (if left { seq![SfxEvent::MenuMove] } else { Seq::empty() });
            (Menu { setup_kinds: with_kind(self.setup_kinds, i, k2), ..self }, snd)
        } else if self.setup_sel == 2 {
            let s1 = if right { self.setup_speed.cycle_next() } else { self.setup_speed };
            let s2 = if left { s1.cycle_prev() } else { s1 };
            let snd = (if right { seq![SfxEvent::MenuMove] } else { Seq::empty() })
                + (if left { seq![SfxEvent::MenuMove] } else { Seq::empty() });
            (Menu { setup_speed: s2, ..self }, snd)
        } else {
            (self, Seq::empty())
        }
    }

    /// The setup screen's keyboard handling: navigate, change the focused
    /// row, and Enter — which cycles a player or speed row, starts on Start
    /// and backs out on Back; Escape and Backspace back out.
    pub open spec fn setup_keys(self, k: Keys, pad: MenuInput) -> (Menu, Seq<SfxEvent>, Flow) {
        let (sel, moved) = navigate(self.setup_sel, (SETUP_ITEMS - 1) as usize, k.up || pad.up, k.down || pad.down);
        let (m, changed) = Menu { setup_sel: sel, ..self }.setup_arrows(k.right || pad.right, k.left || pad.left);
        let snd = moved + changed;
        let escaped = k.escape || k.backspace || pad.back;
        if k.enter || pad.confirm {
            if sel < 2 {
                (Menu { setup_kinds: with_kind(m.setup_kinds, sel as int, m.setup_kinds[sel as int].cycle_next()), ..m },
                    snd.push(SfxEvent::MenuMove), Flow::Draw { start: false, back: escaped })
            } else if sel == 2 {
                (Menu { setup_speed: m.setup_speed.cycle_next(), ..m }, snd.push(SfxEvent::MenuMove),
                    Flow::Draw { start: false, back: escaped })
            } else if sel == SETUP_START {
                (m, snd, Flow::Draw { start: true, back: escaped })
            } else {
                (m, snd, Flow::Draw { start: false, back: true })
            }
        } else {
            (m, snd, Flow::Draw { start: false, back: escaped })
        }
    }

    /// The help screen's keyboard handling: Escape, Backspace, or either pad
    /// button asks to return to the start menu once the screen is drawn.
    pub open spec fn help_keys(self, k: Keys, pad: MenuInput) -> (Menu, Seq<SfxEvent>, Flow) {
        (self, Seq::empty(), Flow::Draw { start: false, back: k.escape || k.backspace || pad.confirm || pad.back })
    }

    pub open spec fn keys_spec(self, k: Keys, pad: MenuInput) -> (Menu, Seq<SfxEvent>, Flow) {
        match self.screen {
            AppScreen::Startup => self.startup_keys(k, pad),
            AppScreen::Setup => self.setup_keys(k, pad),
            AppScreen::Help => self.help_keys(k, pad),
            AppScreen::Playing => (self, Seq::empty(), Flow::Draw { start: false, back: false }),
        }
    }

    /// The drawn screen's click handling, plus the setup screen's pending
    /// start/back requests: start wins over back, and each screen change
    /// plays the confirm sound.
    pub open spec fn click_spec(self, c: Click, start: bool, back: bool) -> (Menu, Seq<SfxEvent>, End) {
        match self.screen {
            AppScreen::Startup => match c {
                Click::StartupButton(i) => if i == 0 {
                    (Menu { screen: AppScreen::Setup, setup_sel: SETUP_START, ..self }, seq![SfxEvent::MenuConfirm], End::Stay)
                } else if i == 1 {
                    (Menu { screen: AppScreen::Help, ..self }, seq![SfxEvent::MenuConfirm], End::Stay)
                } else {
                    (self, seq![SfxEvent::MenuConfirm], End::Quit)
                },
                _ => (self, Seq::empty(), End::Stay),
            },
            AppScreen::Setup => {
                let (m, snd, start2, back2) = match c {
                    Click::Setup(SetupAction::Start) => (self, Seq::empty(), true, back),
                    Click::Setup(SetupAction::Back) => (self, Seq::empty(), start, true),
                    Click::Setup(SetupAction::Cycle(i)) => if i < 2 {
                        (Menu { setup_kinds: with_kind(self.setup_kinds, i as int, self.setup_kinds[i as int].cycle_next()), ..self },
                            seq![SfxEvent::MenuMove], start, back)
                    } else {
                        (self, Seq::empty(), start, back)
                    },
                    Click::Setup(SetupAction::CycleSpeed) => (Menu { setup_speed: self.setup_speed.cycle_next(), ..self },
                        seq![SfxEvent::MenuMove], start, back),
                    _ => (self, Seq::empty(), start, back),
                };
                if start2 {
                    (Menu { screen: AppScreen::Playing, ..m }, snd.push(SfxEvent::MenuConfirm), End::StartMatch)
                } else if back2 {
                    (Menu { screen: AppScreen::Startup, ..m }, snd.push(SfxEvent::MenuConfirm), End::Stay)
                } else {
                    (m, snd, End::Stay)
                }
            },
            AppScreen::Help => {
                let by_key: Seq<SfxEvent> = if back { seq![SfxEvent::MenuConfirm] } else { Seq::empty() };
                if c == Click::HelpBack {
                    (Menu { screen: AppScreen::Startup, ..self }, by_key.push(SfxEvent::MenuConfirm), End::Stay)
                } else if back {
                    (Menu { screen: AppScreen::Startup, ..self }, by_key, End::Stay)
                } else {
                    (self, by_key, End::Stay)
                }
            },
            AppScreen::Playing => (self, Seq::empty(), End::Stay),
        }
    }
}


fn navigate_exec(sel: usize, last: usize, up: bool, down: bool, sounds: &mut Vec<SfxEvent>) -> (s: usize)
    ensures
        s == navigate(sel, last, up, down).0,
        final(sounds)@ == old(sounds)@ + navigate(sel, last, up, down).1,
{
    let mut s = sel;
    if up {
        let prev = s;
        s = if s > 0 { s - 1 } else { 0 };
        if s != prev {
            sounds.push(SfxEvent::MenuMove);
        }
    }
    if down {
        let prev = s;
        s = if s < last && s + 1 < last { s + 1 } else { last };
        if s != prev {
            sounds.push(SfxEvent::MenuMove);
        }
    }
    assert(old(sounds)@ + navigate(sel, last, up, down).1 =~= sounds@);
    s
}

fn set_kind(kinds: [ControllerKind; 2], i: usize, k: ControllerKind) -> (r: [ControllerKind; 2])
    requires
        i < 2,
    ensures
        r == with_kind(kinds, i as int, k),
{
    if i == 0 { [k, kinds[1]] } else { [kinds[0], k] }
}

impl Menu {
    /// The start menu, with the setup screen preset to Human vs a Normal AI at
    /// Normal speed and its focus on Start.
    pub fn new() -> (m: Menu)
        ensures
            m.wf(),
            m.screen == AppScreen::Startup,
            m.menu_sel == 0,
            m.setup_sel == SETUP_START,
            m.setup_kinds == [ControllerKind::Human, ControllerKind::Ai(crate::control::AiDifficulty::Normal)],
            m.setup_speed == GameSpeed::Normal,
    {
        Menu {
            screen: AppScreen::Startup,
            menu_sel: 0,
            setup_sel: SETUP_START,
            setup_kinds: [ControllerKind::Human, ControllerKind::Ai(crate::control::AiDifficulty::Normal)],
            setup_speed: GameSpeed::Normal,
        }
    }

    fn startup_keys_exec(&mut self, k: Keys, pad: MenuInput) -> (r: (Vec<SfxEvent>, Flow))
        requires
            old(self).wf(),
        ensures
            final(self).wf(),
            (*final(self), r.0@, r.1) == old(self).startup_keys(k, pad),
    {
        let mut sounds: Vec<SfxEvent> = Vec::new();
        let sel = navigate_exec(self.menu_sel, STARTUP_ITEMS - 1, k.up || pad.up, k.down || pad.down, &mut sounds);
        self.menu_sel = sel;
        assert(sounds@ =~= navigate(old(self).menu_sel, (STARTUP_ITEMS - 1) as usize, k.up || pad.up, k.down || pad.down).1);
        if k.escape || pad.back {
            sounds.push(SfxEvent::MenuConfirm);
            return (sounds, Flow::Quit);
        }
        if k.h {
            sounds.push(SfxEvent::MenuConfirm);
            self.screen = AppScreen::Help;
            return (sounds, Flow::NextFrame);
        }
        if k.enter || pad.confirm {
            sounds.push(SfxEvent::MenuConfirm);
            if sel == 0 {
                self.setup_sel = SETUP_START;
                self.screen = AppScreen::Setup;
            } else if sel == 1 {
                self.screen = AppScreen::Help;
            } else {
                return (sounds, Flow::Quit);
            }
            return (sounds, Flow::NextFrame);
        }
        (sounds, Flow::Draw { start: false, back: false })
    }

    fn setup_arrows_exec(&mut self, right: bool, left: bool, sounds: &mut Vec<SfxEvent>)
        requires
            old(self).wf(),
        ensures
            final(self).wf(),
            *final(self) == old(self).setup_arrows(right, left).0,
            final(sounds)@ == old(sounds)@ + old(self).setup_arrows(right, left).1,
    {
        let ghost s0 = old(sounds)@;
        let sel = self.setup_sel;
        if sel < 2 {
            let mut kind = self.setup_kinds[sel];
            if right {
                kind = kind.next();
                sounds.push(SfxEvent::MenuMove);
            }
            if left {
                kind = kind.prev();
                sounds.push(SfxEvent::MenuMove);
            }
            self.setup_kinds = set_kind(self.setup_kinds, sel, kind);
        } else if sel == 2 {
            if right {
                self.setup_speed = self.setup_speed.next();
                sounds.push(SfxEvent::MenuMove);
            }
            if left {
                self.setup_speed = self.setup_speed.prev();
                sounds.push(SfxEvent::MenuMove);
            }
        }
        assert(sounds@ =~= s0 + old(self).setup_arrows(right, left).1);
    }

    #[verifier::spinoff_prover]
    #[verifier::rlimit(40)]
    fn setup_keys_exec(&mut self, k: Keys, pad: MenuInput) -> (r: (Vec<SfxEvent>, Flow))
        requires
            old(self).wf(),
        ensures
            final(self).wf(),
            (*final(self), r.0@, r.1) == old(self).setup_keys(k, pad),
    {
        let mut sounds: Vec<SfxEvent> = Vec::new();
        let sel = navigate_exec(self.setup_sel, SETUP_ITEMS - 1, k.up || pad.up, k.down || pad.down, &mut sounds);
        self.setup_sel = sel;
        assert(sounds@ =~= navigate(old(self).setup_sel, (SETUP_ITEMS - 1) as usize, k.up || pad.up, k.down || pad.down).1);
        self.setup_arrows_exec(k.right || pad.right, k.left || pad.left, &mut sounds);
        let mut start = false;
        let mut back = false;
        if k.enter || pad.confirm {
            if sel < 2 {
                self.setup_kinds = set_kind(self.setup_kinds, sel, self.setup_kinds[sel].next());
                sounds.push(SfxEvent::MenuMove);
            } else if sel == 2 {
                self.setup_speed = self.setup_speed.next();
                sounds.push(SfxEvent::MenuMove);
            } else if sel == SETUP_START {
                start = true;
            } else {
                back = true;
            }
        }
        if k.escape || k.backspace || pad.back {
            back = true;
        }
        (sounds, Flow::Draw { start, back })
    }

    /// Handles this frame's keys and pad gestures on the current screen.
    pub fn keys(&mut self, k: Keys, pad: MenuInput) -> (r: (Vec<SfxEvent>, Flow))
        requires
            old(self).wf(),
        ensures
            final(self).wf(),
            (*final(self), r.0@, r.1) == old(self).keys_spec(k, pad),
    {
        match self.screen {
            AppScreen::Startup => self.startup_keys_exec(k, pad),
            AppScreen::Setup => self.setup_keys_exec(k, pad),
            AppScreen::Help => {
                let sounds: Vec<SfxEvent> = Vec::new();
                assert(sounds@ =~= Seq::<SfxEvent>::empty());
                (sounds, Flow::Draw { start: false, back: k.escape || k.backspace || pad.confirm || pad.back })
            },
            AppScreen::Playing => {
                let sounds: Vec<SfxEvent> = Vec::new();
                assert(sounds@ =~= Seq::<SfxEvent>::empty());
                (sounds, Flow::Draw { start: false, back: false })
            },
        }
    }

    /// Handles the click seen while drawing, together with the setup screen's
    /// start/back requests from [`Menu::keys`].
    pub fn click(&mut self, c: Click, start: bool, back: bool) -> (r: (Vec<SfxEvent>, End))
        requires
            old(self).wf(),
        ensures
            final(self).wf(),
            (*final(self), r.0@, r.1) == old(self).click_spec(c, start, back),
    {
        let mut sounds: Vec<SfxEvent> = Vec::new();
        match self.screen {
            AppScreen::Startup => {
                if let Click::StartupButton(i) = c {
                    sounds.push(SfxEvent::MenuConfirm);
                    if i == 0 {
                        self.setup_sel = SETUP_START;
                        self.screen = AppScreen::Setup;
                    } else if i == 1 {
                        self.screen = AppScreen::Help;
                    } else {
                        return (sounds, End::Quit);
                    }
                }
                (sounds, End::Stay)
            },
            AppScreen::Setup => {
                let mut start = start;
                let mut back = back;
                match c {
                    Click::Setup(SetupAction::Start) => {
                        start = true;
                    },
                    Click::Setup(SetupAction::Back) => {
                        back = true;
                    },
                    Click::Setup(SetupAction::Cycle(i)) => {
                        if i < 2 {
                            self.setup_kinds = set_kind(self.setup_kinds, i, self.setup_kinds[i].next());
                            sounds.push(SfxEvent::MenuMove);
                        }
                    },
                    Click::Setup(SetupAction::CycleSpeed) => {
                        self.setup_speed = self.setup_speed.next();
                        sounds.push(SfxEvent::MenuMove);
                    },
                    _ => {},
                }
                if start {
                    sounds.push(SfxEvent::MenuConfirm);
                    self.screen = AppScreen::Playing;
                    return (sounds, End::StartMatch);
                }
                if back {
                    sounds.push(SfxEvent::MenuConfirm);
                    self.screen = AppScreen::Startup;
                }
                (sounds, End::Stay)
            },
            AppScreen::Help => {
                if back {
                    sounds.push(SfxEvent::MenuConfirm);
                    self.screen = AppScreen::Startup;
                }
                if let Click::HelpBack = c {
                    sounds.push(SfxEvent::MenuConfirm);
                    self.screen = AppScreen::Startup;
                }
                proof {
                    let by_key: Seq<SfxEvent> = if back { seq![SfxEvent::MenuConfirm] } else { Seq::empty() };
                    if c == Click::HelpBack {
                        assert(sounds@ =~= by_key.push(SfxEvent::MenuConfirm));
                    } else {
                        assert(sounds@ =~= by_key);
                    }
                }
                (sounds, End::Stay)
            },
            AppScreen::Playing => (sounds, End::Stay),
        }
    }

    /// Leaves a running match for the start menu, focused on its first
    /// button.
    pub fn leave_match(&mut self) -> (sounds: Vec<SfxEvent>)
        requires
            old(self).wf(),
        ensures
            final(self).wf(),
            *final(self) == (Menu { screen: AppScreen::Startup, menu_sel: 0, ..*old(self) }),
            sounds@ == seq![SfxEvent::MenuConfirm],
    {
        self.screen = AppScreen::Startup;
        self.menu_sel = 0;
        let mut v: Vec<SfxEvent> = Vec::new();
        v.push(SfxEvent::MenuConfirm);
        v
    }
}

/// On a player row of the setup screen, pressing right and left on the same
/// frame leaves the row's controller unchanged (with a move sound for each).
pub proof fn lemma_right_left_cancel(m: Menu, k: Keys, pad: MenuInput)
    requires
        m.wf(),
        m.screen == AppScreen::Setup,
        m.setup_sel < 2,
        !(k.up || pad.up || k.down || pad.down || k.enter || pad.confirm),
        k.right && k.left,
    ensures
        m.keys_spec(k, pad).0.setup_kinds =~= m.setup_kinds,
        m.keys_spec(k, pad).1 == seq![SfxEvent::MenuMove, SfxEvent::MenuMove],
{
    crate::control::lemma_next_prev_inverse(m.setup_kinds[m.setup_sel as int]);
    assert(m.keys_spec(k, pad).1 =~= seq![SfxEvent::MenuMove, SfxEvent::MenuMove]);
}

/// Every change of screen, by key or by click, ends with the confirm sound,
/// and the start menu and setup screen never move their focus out of range.
pub proof fn lemma_screen_changes_confirm(m: Menu, k: Keys, pad: MenuInput, c: Click, start: bool, back: bool)
    requires
        m.wf(),
    ensures
        m.keys_spec(k, pad).0.screen != m.screen ==> m.keys_spec(k, pad).1.len() > 0
            && m.keys_spec(k, pad).1.last() == SfxEvent::MenuConfirm,
        m.keys_spec(k, pad).2 == Flow::Quit ==> m.keys_spec(k, pad).1.last() == SfxEvent::MenuConfirm,
        m.click_spec(c, start, back).0.screen != m.screen ==> m.click_spec(c, start, back).1.len() > 0
            && m.click_spec(c, start, back).1.last() == SfxEvent::MenuConfirm,
        m.keys_spec(k, pad).0.wf(),
        m.click_spec(c, start, back).0.wf(),
{
}

/// A match starts only from the setup screen and switches to the match; a
/// Start request from the keys or a click always starts it, and unless the
/// same click cycled a row, with exactly the controllers and speed the setup
/// screen showed when it was drawn.
pub proof fn lemma_start_uses_the_setup(m: Menu, c: Click, start: bool, back: bool)
    requires
        m.wf(),
    ensures
        m.click_spec(c, start, back).2 == End::StartMatch ==> m.screen == AppScreen::Setup
            && m.click_spec(c, start, back).0.screen == AppScreen::Playing,
        (m.screen == AppScreen::Setup && (start || c == Click::Setup(SetupAction::Start))) ==>
            m.click_spec(c, start, back).2 == End::StartMatch,
        (m.screen == AppScreen::Setup && (start || c == Click::Setup(SetupAction::Start))
            && !(c matches Click::Setup(SetupAction::Cycle(_))) && c != Click::Setup(SetupAction::CycleSpeed)) ==> (
            m.click_spec(c, start, back).0.setup_kinds == m.setup_kinds
            && m.click_spec(c, start, back).0.setup_speed == m.setup_speed),
{
}

/// On the setup screen the focus moves one row per Up or Down, within the
/// five rows; Enter (or a pad confirm) asks to start the match exactly when
/// the focus ends on the Start row (3) and to go back when it ends on the
/// Back row (4); Escape, Backspace or the pad's Start always ask to go back.
/// The keys alone never leave the setup screen.
pub proof fn lemma_setup_enter_acts_on_the_focused_row(m: Menu, k: Keys, pad: MenuInput)
    requires
        m.wf(),
        m.screen == AppScreen::Setup,
    ensures
        ({
            let r = m.keys_spec(k, pad);
            let enter = k.enter || pad.confirm;
            let escaped = k.escape || k.backspace || pad.back;
            let up = k.up || pad.up;
            let down = k.down || pad.down;
            &&& r.0.screen == AppScreen::Setup
            &&& r.2 == Flow::Draw {
                start: enter && r.0.setup_sel == 3,
                back: escaped || (enter && r.0.setup_sel == 4),
            }
            &&& (!up && !down) ==> r.0.setup_sel == m.setup_sel
            &&& (up && !down) ==> r.0.setup_sel == (if m.setup_sel == 0 { 0 } else { m.setup_sel - 1 })
            &&& (!up && down) ==> r.0.setup_sel == (if m.setup_sel == 4 { 4 } else { m.setup_sel + 1 })
            &&& (up && down) ==> r.0.setup_sel == (if m.setup_sel == 0 { 1 } else { m.setup_sel as int })
        }),
{
}

/// Enter on the Back row of the setup screen, with no other key, returns to
/// the start menu once the screen is drawn (with no click): it never starts
/// a match and keeps the chosen setup.
pub proof fn lemma_enter_on_back_returns(m: Menu, k: Keys, pad: MenuInput)
    requires
        m.wf(),
        m.screen == AppScreen::Setup,
        m.setup_sel == 4,
        k.enter,
        !(k.up || pad.up || k.down || pad.down),
    ensures
        m.keys_spec(k, pad).2 matches Flow::Draw { start, back } && !start && back && ({
            let after = m.keys_spec(k, pad).0.click_spec(Click::Nothing, start, back);
            &&& after.0.screen == AppScreen::Startup
            &&& after.2 == End::Stay
            &&& after.1 == seq![SfxEvent::MenuConfirm]
            &&& after.0.setup_kinds == m.setup_kinds
            &&& after.0.setup_speed == m.setup_speed
        }),
{
    assert(m.keys_spec(k, pad).1 =~= Seq::<SfxEvent>::empty());
}

/// On the setup screen a click, with the pending key requests, starts a
/// match exactly when Start was requested by key or click; otherwise a Back
/// request by key or click returns to the start menu; otherwise the screen
/// stays. The setup screen never quits the program.
pub proof fn lemma_setup_click_outcome(m: Menu, c: Click, start: bool, back: bool)
    requires
        m.wf(),
        m.screen == AppScreen::Setup,
    ensures
        ({
            let r = m.click_spec(c, start, back);
            let go = start || c == Click::Setup(SetupAction::Start);
            let leave = back || c == Click::Setup(SetupAction::Back);
            &&& (r.2 == End::StartMatch) == go
            &&& !go ==> r.2 == End::Stay
            &&& r.0.screen == (if go {
                AppScreen::Playing
            } else if leave {
                AppScreen::Startup
            } else {
                AppScreen::Setup
            })
            &&& (go || leave) ==> r.1.len() > 0 && r.1.last() == SfxEvent::MenuConfirm
            &&& c == Click::Setup(SetupAction::Back) ==> r.1 == (if go || leave {
                seq![SfxEvent::MenuConfirm]
            } else {
                Seq::empty()
            })
        }),
{
}

/// On the start menu, Enter acts on the selected button after this frame's
/// moves: New Game opens the setup screen focused on Start, Help opens the
/// help screen, Quit leaves; Escape always leaves. A click on a button does
/// the same for that button.
pub proof fn lemma_startup_buttons(m: Menu, k: Keys, pad: MenuInput, i: usize)
    requires
        m.wf(),
        m.screen == AppScreen::Startup,
    ensures
        ({
            let r = m.keys_spec(k, pad);
            &&& (k.escape || pad.back) ==> r.2 == Flow::Quit
            &&& (!(k.escape || pad.back) && !k.h && (k.enter || pad.confirm)) ==> (
                (r.0.menu_sel == 0 ==> r.0.screen == AppScreen::Setup && r.0.setup_sel == 3 && r.2 == Flow::NextFrame)
                && (r.0.menu_sel == 1 ==> r.0.screen == AppScreen::Help && r.2 == Flow::NextFrame)
                && (r.0.menu_sel == 2 ==> r.2 == Flow::Quit))
            &&& r.0.menu_sel < 3
        }),
        ({
            let r = m.click_spec(Click::StartupButton(i), false, false);
            &&& i == 0 ==> r.0.screen == AppScreen::Setup && r.0.setup_sel == 3 && r.2 == End::Stay
            &&& i == 1 ==> r.0.screen == AppScreen::Help && r.2 == End::Stay
            &&& i >= 2 ==> r.2 == End::Quit
            &&& r.1 == seq![SfxEvent::MenuConfirm]
        }),
{
}

/// On the setup screen, with no Up, Down or Enter, Right moves the focused
/// player row to the next controller kind and Left to the previous one (the
/// speed row likewise steps the speed), each with one move sound; the other
/// row, and everything on the Start and Back rows, stay as they were.
pub proof fn lemma_setup_arrows_change_the_focused_row(m: Menu, k: Keys, pad: MenuInput)
    requires
        m.wf(),
        m.screen == AppScreen::Setup,
        !(k.up || pad.up || k.down || pad.down || k.enter || pad.confirm),
    ensures
        ({
            let r = m.keys_spec(k, pad);
            let right = k.right || pad.right;
            let left = k.left || pad.left;
            let i = m.setup_sel as int;
            &&& r.0.setup_sel == m.setup_sel
            &&& (i < 2 && right && !left) ==> r.0.setup_kinds[i] == m.setup_kinds[i].cycle_next()
                && r.1 == seq![SfxEvent::MenuMove]
            &&& (i < 2 && left && !right) ==> r.0.setup_kinds[i] == m.setup_kinds[i].cycle_prev()
                && r.1 == seq![SfxEvent::MenuMove]
            &&& i < 2 ==> r.0.setup_kinds[1 - i] == m.setup_kinds[1 - i] && r.0.setup_speed == m.setup_speed
            &&& (i == 2 && right && !left) ==> r.0.setup_speed == m.setup_speed.cycle_next()
                && r.1 == seq![SfxEvent::MenuMove]
            &&& (i == 2 && left && !right) ==> r.0.setup_speed == m.setup_speed.cycle_prev()
                && r.1 == seq![SfxEvent::MenuMove]
            &&& i == 2 ==> r.0.setup_kinds == m.setup_kinds
            &&& i >= 3 ==> r.0 == m && r.1 == Seq::<SfxEvent>::empty()
            &&& (!right && !left) ==> r.0 == m && r.1 == Seq::<SfxEvent>::empty()
        }),
{
    let right = k.right || pad.right;
    let left = k.left || pad.left;
    let mv: Seq<SfxEvent> = seq![SfxEvent::MenuMove];
    let none: Seq<SfxEvent> = Seq::empty();
    assert(m.keys_spec(k, pad).1 =~= m.setup_arrows(right, left).1);
    assert(mv + none =~= mv);
    assert(none + mv =~= mv);
    assert(none + none =~= none);
    if m.setup_sel < 2 {
        let i = m.setup_sel as int;
        assert(with_kind(m.setup_kinds, i, m.setup_kinds[i]) =~= m.setup_kinds);
    }
}

/// The help screen's keys change nothing but ask to go back on Escape,
/// Backspace or either pad button; once drawn, that request or a click on
/// Back returns to the start menu with a confirm sound, and nothing else
/// leaves the help screen.
pub proof fn lemma_help_returns_to_start(m: Menu, k: Keys, pad: MenuInput, c: Click, back: bool)
    requires
        m.wf(),
        m.screen == AppScreen::Help,
    ensures
        m.keys_spec(k, pad).0 == m,
        m.keys_spec(k, pad).2 == (Flow::Draw {
            start: false,
            back: k.escape || k.backspace || pad.confirm || pad.back,
        }),
        ({
            let r = m.click_spec(c, false, back);
            &&& r.2 == End::Stay
            &&& r.0.screen == (if back || c == Click::HelpBack { AppScreen::Startup } else { AppScreen::Help })
            &&& (back || c == Click::HelpBack) ==> r.1.len() > 0 && r.1.last() == SfxEvent::MenuConfirm
            &&& !(back || c == Click::HelpBack) ==> r.1 == Seq::<SfxEvent>::empty()
        }),
{
}

} // verus!

//! How the frame is composited, and the match pacing chosen on the setup
//! screen.
use vstd::prelude::*;
use crate::control::ControllerKind;

verus! {

/// Split-screen viewport width (one render target per player), pixels.
pub const VW: u32 = 480;
/// Viewport height, pixels.
pub const VH: u32 = 540;
/// Single-screen viewport: same height and pixel scale, twice as wide, so it
/// fills the window when only one viewpoint is drawn.
pub const VW_FULL: u32 = 960;

/// With exactly one human in the match there is only one viewpoint worth
/// showing, so it gets the whole window; two humans — or an AI-vs-AI
/// spectator match — keep the side-by-side split.
#[derive(Clone, Copy, PartialEq, Eq, Debug, Structural)]
pub enum Layout {
    Single { viewer: usize },
    Split,
}

/// Number of human-controlled slots.
pub open spec fn human_count(kinds: [ControllerKind; 2]) -> int {
    (if kinds[0] is Human { 1int } else { 0 }) + (if kinds[1] is Human { 1int } else { 0 })
}

/// The layout for a pair of controllers: the single human's view when there
/// is exactly one, the split otherwise.
pub open spec fn layout_spec(kinds: [ControllerKind; 2]) -> Layout {
    if human_count(kinds) == 1 {
        Layout::Single { viewer: if kinds[0] is Human { 0 } else { 1 } }
    } else {
        Layout::Split
    }
}

impl Layout {
    /// Single-screen when exactly one slot is human, split otherwise.
    pub fn for_controllers(kinds: [ControllerKind; 2]) -> (l: Layout)
        ensures
            l == layout_spec(kinds),
    {
        match (kinds[0].is_ai(), kinds[1].is_ai()) {
            (false, true) => Layout::Single { viewer: 0 },
            (true, false) => Layout::Single { viewer: 1 },
            _ => Layout::Split,
        }
    }

    /// Viewport size `(width, height)` in render-target pixels.
    pub open spec fn size_px(self) -> (u32, u32) {
        match self {
            Layout::Single { .. } => (VW_FULL, VH),
            Layout::Split => (VW, VH),
        }
    }

    /// Viewport size `(width, height)` in render-target pixels.
    pub fn view_size(self) -> (wh: (u32, u32))
        ensures
            wh == self.size_px(),
    {
        match self {
            Layout::Single { .. } => (VW_FULL, VH),
            Layout::Split => (VW, VH),
        }
    }
}

/// The single view belongs to the one human, and it is used exactly when one
/// slot is human.
pub proof fn lemma_single_view_is_the_lone_human(kinds: [ControllerKind; 2])
    ensures
        (layout_spec(kinds) is Single) <==> human_count(kinds) == 1,
        layout_spec(kinds) matches Layout::Single { viewer } ==> viewer < 2 && kinds[viewer as int] is Human
            && kinds[1 - viewer] is Ai,
{
}

/// The single-screen viewport is exactly twice as wide as a split half and
/// equally tall.
pub proof fn lemma_single_is_twice_split(viewer: usize)
    ensures
        (Layout::Single { viewer }).size_px().0 == 2 * Layout::Split.size_px().0,
        (Layout::Single { viewer }).size_px().1 == Layout::Split.size_px().1,
{
}

/// Match pacing: scales the simulation's time step uniformly.
#[derive(Clone, Copy, PartialEq, Eq, Debug, Structural)]
pub enum GameSpeed {
    Slow,
    Normal,
    Fast,
}

impl GameSpeed {
    pub open spec fn ordinal(self) -> int {
        match self {
            GameSpeed::Slow => 0,
            GameSpeed::Normal => 1,
            GameSpeed::Fast => 2,
        }
    }

    pub open spec fn at(n: int) -> GameSpeed {
        let m = n % 3;
        if m == 0 {
            GameSpeed::Slow
        } else if m == 1 {
            GameSpeed::Normal
        } else {
            GameSpeed::Fast
        }
    }

    pub open spec fn cycle_next(self) -> GameSpeed {
        GameSpeed::at(self.ordinal() + 1)
    }

    pub open spec fn cycle_prev(self) -> GameSpeed {
        GameSpeed::at(self.ordinal() + 2)
    }

    pub open spec fn label_text(self) -> Seq<char> {
        match self {
            GameSpeed::Slow => "Slow"@,
            GameSpeed::Normal => "Normal"@,
            GameSpeed::Fast => "Fast"@,
        }
    }

    /// Time-step multiplier in percent: 75, 100, 130.
    pub open spec fn percent(self) -> int {
        match self {
            GameSpeed::Slow => 75,
            GameSpeed::Normal => 100,
            GameSpeed::Fast => 130,
        }
    }

    pub fn label(self) -> (s: &'static str)
        ensures
            s@ == self.label_text(),
    {
        match self {
            GameSpeed::Slow => "Slow",
            GameSpeed::Normal => "Normal",
            GameSpeed::Fast => "Fast",
        }
    }

    /// Multiplier applied to the frame's time step, as a percentage.
    pub fn scale_percent(self) -> (p: u32)
        ensures
            p == self.percent(),
    {
        match self {
            GameSpeed::Slow => 75,
            GameSpeed::Normal => 100,
            GameSpeed::Fast => 130,
        }
    }

    /// Cycle Slow → Normal → Fast → Slow, for the setup screen.
    pub fn next(self) -> (s: GameSpeed)
        ensures
            s == self.cycle_next(),
    {
        match self {
            GameSpeed::Slow => GameSpeed::Normal,
            GameSpeed::Normal => GameSpeed::Fast,
            GameSpeed::Fast => GameSpeed::Slow,
        }
    }

    /// Reverse of [`next`], for the setup screen's left arrow.
    pub fn prev(self) -> (s: GameSpeed)
        ensures
            s == self.cycle_prev(),
    {
        match self {
            GameSpeed::Slow => GameSpeed::Fast,
            GameSpeed::Normal => GameSpeed::Slow,
            GameSpeed::Fast => GameSpeed::Normal,
        }
    }
}

/// Stepping the speed back undoes stepping it forward and vice versa; three
/// steps come back around; slower settings scale time by less.
pub proof fn lemma_speed_cycle(s: GameSpeed)
    ensures
        s.cycle_next().cycle_prev() == s,
        s.cycle_prev().cycle_next() == s,
        s.cycle_next().cycle_next().cycle_next() == s,
        s.cycle_next() != s,
        GameSpeed::Slow.percent() < GameSpeed::Normal.percent() < GameSpeed::Fast.percent(),
        GameSpeed::Normal.percent() == 100,
{
}

} // verus!

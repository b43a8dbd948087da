//! Controller kinds, AI difficulty, and the behaviour labels surfaced by the
//! AI debug overlay.
use vstd::prelude::*;

verus! {

/// AI skill level.
#[derive(Clone, Copy, PartialEq, Eq, Debug, Structural)]
pub enum AiDifficulty {
    Easy,
    Normal,
    Hard,
}

impl AiDifficulty {
    /// Position of the difficulty in the Easy < Normal < Hard order.
    pub open spec fn rank(self) -> int {
        match self {
            AiDifficulty::Easy => 0,
            AiDifficulty::Normal => 1,
            AiDifficulty::Hard => 2,
        }
    }

    pub open spec fn label_text(self) -> Seq<char> {
        match self {
            AiDifficulty::Easy => "Easy"@,
            AiDifficulty::Normal => "Normal"@,
            AiDifficulty::Hard => "Hard"@,
        }
    }

    /// Name shown on the setup screen and in the debug overlay.
    pub fn label(self) -> (s: &'static str)
        ensures
            s@ == self.label_text(),
    {
        match self {
            AiDifficulty::Easy => "Easy",
            AiDifficulty::Normal => "Normal",
            AiDifficulty::Hard => "Hard",
        }
    }

    /// `rank` as a machine integer.
    fn index(self) -> (i: u64)
        ensures
            i == self.rank(),
    {
        match self {
            AiDifficulty::Easy => 0,
            AiDifficulty::Normal => 1,
            AiDifficulty::Hard => 2,
        }
    }
}

/// Who controls a given player slot.
#[derive(Clone, Copy, PartialEq, Eq, Debug, Structural)]
pub enum ControllerKind {
    Human,
    Ai(AiDifficulty),
}

/// Number of distinct controller kinds in the setup-screen cycle.
pub const KIND_COUNT: u64 = 4;

impl ControllerKind {
    /// Position in the setup cycle Human, Easy, Normal, Hard.
    pub open spec fn ordinal(self) -> int {
        match self {
            ControllerKind::Human => 0,
            ControllerKind::Ai(d) => 1 + d.rank(),
        }
    }

    /// The kind at position `n` of the setup cycle (taken modulo the cycle).
    pub open spec fn at(n: int) -> ControllerKind {
        let m = n % (KIND_COUNT as int);
        if m == 0 {
            ControllerKind::Human
        } else if m == 1 {
            ControllerKind::Ai(AiDifficulty::Easy)
        } else if m == 2 {
            ControllerKind::Ai(AiDifficulty::Normal)
        } else {
            ControllerKind::Ai(AiDifficulty::Hard)
        }
    }

    /// One step forward in the setup cycle.
    pub open spec fn cycle_next(self) -> ControllerKind {
        ControllerKind::at(self.ordinal() + 1)
    }

    /// One step backward in the setup cycle.
    pub open spec fn cycle_prev(self) -> ControllerKind {
        ControllerKind::at(self.ordinal() + (KIND_COUNT as int) - 1)
    }

    pub open spec fn label_text(self) -> Seq<char> {
        match self {
            ControllerKind::Human => "Human"@,
            ControllerKind::Ai(d) => d.label_text(),
        }
    }

    pub fn label(self) -> (s: &'static str)
        ensures
            s@ == self.label_text(),
    {
        match self {
            ControllerKind::Human => "Human",
            ControllerKind::Ai(d) => d.label(),
        }
    }

    /// Cycle Human → Easy → Normal → Hard → Human, for the setup screen.
    pub fn next(self) -> (k: ControllerKind)
        ensures
            k == self.cycle_next(),
    {
        match self {
            ControllerKind::Human => ControllerKind::Ai(AiDifficulty::Easy),
            ControllerKind::Ai(AiDifficulty::Easy) => ControllerKind::Ai(AiDifficulty::Normal),
            ControllerKind::Ai(AiDifficulty::Normal) => ControllerKind::Ai(AiDifficulty::Hard),
            ControllerKind::Ai(AiDifficulty::Hard) => ControllerKind::Human,
        }
    }

    /// Reverse of [`next`], for the setup screen's left arrow.
    pub fn prev(self) -> (k: ControllerKind)
        ensures
            k == self.cycle_prev(),
    {
        match self {
            ControllerKind::Human => ControllerKind::Ai(AiDifficulty::Hard),
            ControllerKind::Ai(AiDifficulty::Easy) => ControllerKind::Human,
            ControllerKind::Ai(AiDifficulty::Normal) => ControllerKind::Ai(AiDifficulty::Easy),
            ControllerKind::Ai(AiDifficulty::Hard) => ControllerKind::Ai(AiDifficulty::Normal),
        }
    }

    pub fn is_ai(self) -> (b: bool)
        ensures
            b == (self is Ai),
    {
        match self {
            ControllerKind::Ai(_) => true,
            ControllerKind::Human => false,
        }
    }
}

/// Stepping back undoes stepping forward, and stepping forward undoes stepping back.
pub proof fn lemma_next_prev_inverse(k: ControllerKind)
    ensures
        k.cycle_next().cycle_prev() == k,
        k.cycle_prev().cycle_next() == k,
{
}

/// Every kind sits at its own position of the cycle, and the cycle has
/// exactly four entries: position `n` and `n + 4` name the same kind, and the
/// four positions name four different kinds.
pub proof fn lemma_cycle_is_a_bijection(k: ControllerKind, n: int)
    ensures
        ControllerKind::at(k.ordinal()) == k,
        0 <= k.ordinal() < KIND_COUNT,
        ControllerKind::at(n + KIND_COUNT as int) == ControllerKind::at(n),
        0 <= n < KIND_COUNT ==> ControllerKind::at(n).ordinal() == n,
{
}

/// Four forward steps visit every kind once and return to the start.
pub proof fn lemma_four_steps_return(k: ControllerKind)
    ensures
        k.cycle_next().cycle_next().cycle_next().cycle_next() == k,
        k.cycle_next() != k,
        k.cycle_next().cycle_next() != k,
        k.cycle_next().cycle_next().cycle_next() != k,
{
}

/// Explicit behaviour-tree node result: `Success` means the node took
/// responsibility, `Failure` lets a selector fall through, `Running` is an
/// ongoing action that also stops selector fall-through.
#[derive(Clone, Copy, PartialEq, Eq, Debug, Structural)]
pub enum NodeResult {
    Success,
    Failure,
    Running,
}

/// The currently active movement behaviour, for the debug overlay.
#[derive(Clone, Copy, PartialEq, Eq, Debug, Structural)]
pub enum Behavior {
    Inactive,
    Loiter,
    Avoid,
    Pursue,
    Orbit,
    /// Coasting to swing the nose (and the gun with it) onto the target.
    Pivot,
    /// Giving ground after taking damage.
    Withdraw,
}

impl Behavior {
    pub open spec fn label_text(self) -> Seq<char> {
        match self {
            Behavior::Inactive => "Inactive"@,
            Behavior::Loiter => "Loiter"@,
            Behavior::Avoid => "Avoid"@,
            Behavior::Pursue => "Pursue"@,
            Behavior::Orbit => "Orbit"@,
            Behavior::Pivot => "Pivot"@,
            Behavior::Withdraw => "Withdraw"@,
        }
    }

    pub fn label(self) -> (s: &'static str)
        ensures
            s@ == self.label_text(),
    {
        match self {
            Behavior::Inactive => "Inactive",
            Behavior::Loiter => "Loiter",
            Behavior::Avoid => "Avoid",
            Behavior::Pursue => "Pursue",
            Behavior::Orbit => "Orbit",
            Behavior::Pivot => "Pivot",
            Behavior::Withdraw => "Withdraw",
        }
    }
}

pub open spec fn wrap64(x: int) -> int {
    x % 0x1_0000_0000_0000_0000
}

/// Base seed of the agent driving slot `idx` at difficulty `diff`:
/// `0xA15EED * (idx + 1) + rank(diff) * 0x9E37`, wrapping at 2^64.
pub open spec fn agent_seed_spec(idx: int, diff: AiDifficulty) -> int {
    wrap64(wrap64(0xA15EED * (idx + 1)) + diff.rank() * 0x9E37)
}

/// Deterministic base seed for the AI agent of a slot; varies by difficulty.
pub fn agent_seed(idx: usize, diff: AiDifficulty) -> (seed: u64)
    requires
        idx < usize::MAX,
    ensures
        seed == agent_seed_spec(idx as int, diff),
{
    let base: u64 = 0xA1_5EED;
    let m = base.wrapping_mul(idx as u64 + 1);
    m.wrapping_add(diff.index() * 0x9E37)
}

/// Seed of an agent's private random stream: the base seed mixed with the
/// slot index, `seed ^ (index * 0x9E3779B97F4A7C15)` wrapping at 2^64.
pub fn agent_rng_seed(seed: u64, player_index: usize) -> (s: u64)
    ensures
        s == seed ^ (wrap64(player_index as int * 0x9E3779B97F4A7C15) as u64),
{
    let golden: u64 = 0x9E3779B97F4A7C15;
    seed ^ (player_index as u64).wrapping_mul(golden)
}

} // verus!

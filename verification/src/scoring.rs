//! The match score — one point to the survivor for every kill — and each
//! ship's rocket allowance.
use vstd::prelude::*;

verus! {

/// Kills scored by each player.
#[derive(Clone, Copy, Debug)]
pub struct Scores {
    pub points: [u32; 2],
}

impl Scores {
    pub fn new() -> (s: Scores)
        ensures
            s.points[0] == 0 && s.points[1] == 0,
    {
        Scores { points: [0, 0] }
    }

    /// Records that player `dead` was destroyed: the other player scores.
    pub fn record_kill(&mut self, dead: usize)
        requires
            dead < 2,
            old(self).points[1 - dead] < u32::MAX,
        ensures
            final(self).points[1 - dead] == old(self).points[1 - dead] + 1,
            final(self).points[dead as int] == old(self).points[dead as int],
            final(self).points[0] + final(self).points[1] == old(self).points[0] + old(self).points[1] + 1,
    {
        let winner = 1 - dead;
        self.points[winner] = self.points[winner] + 1;
    }
}

/// Rockets a ship carries per life.
pub const MAX_MISSILES: u8 = 2;

/// Launches a rocket when one is left and the launcher has cooled down
/// (`ready`): uses up one rocket and reports the launch; otherwise changes
/// nothing.
pub fn try_launch_missile(count: &mut u8, ready: bool) -> (launched: bool)
    ensures
        launched == (*old(count) > 0 && ready),
        launched ==> *final(count) == *old(count) - 1,
        !launched ==> *final(count) == *old(count),
{
    if *count > 0 && ready {
        *count = *count - 1;
        true
    } else {
        false
    }
}

} // verus!

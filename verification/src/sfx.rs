//! Sound events raised by the simulation and the menus, how loud each plays,
//! and the per-slot rate limiter that keeps rapid repeats from stacking.
use vstd::prelude::*;

verus! {

/// A sound the game wants played this frame.
#[derive(Clone, Copy, PartialEq, Eq, Debug, Structural)]
pub enum SfxEvent {
    GunFire,
    RocketLaunch,
    ShieldHit,
    HullHit,
    Explosion,
    VehicleCollision,
    RockImpact,
    MenuMove,
    MenuConfirm,
}

/// Number of rate-limiter slots.
pub const LIMITER_SLOTS: usize = 8;

/// A rate limit: the limiter slot an event shares, and the minimum gap
/// between two plays from that slot, in microseconds.
#[derive(Clone, Copy, PartialEq, Eq, Debug, Structural)]
pub struct Throttle {
    pub slot: usize,
    pub min_interval_us: u64,
}

/// How an event is played: its optional rate limit and its volume in percent.
#[derive(Clone, Copy, PartialEq, Eq, Debug, Structural)]
pub struct Playback {
    pub throttle: Option<Throttle>,
    pub volume_percent: u32,
}

pub open spec fn limited(slot: usize, min_interval_us: u64, volume_percent: u32) -> Playback {
    Playback { throttle: Some(Throttle { slot, min_interval_us }), volume_percent }
}

pub open spec fn unlimited(volume_percent: u32) -> Playback {
    Playback { throttle: None, volume_percent }
}

impl SfxEvent {
    /// The playback table: gun fire is limited to one play per 40 ms at 25 %,
    /// a rocket launch to one per 200 ms at 45 %, shield and hull hits to one
    /// per 100 ms (30 %, 40 %), a vehicle collision to one per 200 ms at 35 %,
    /// a rock impact to one per 220 ms at 30 %; explosions (60 %), menu moves
    /// (40 %) and menu confirms (50 %) are never limited.
    pub open spec fn playback_spec(self) -> Playback {
        match self {
            SfxEvent::GunFire => limited(0, 40_000, 25),
            SfxEvent::RocketLaunch => limited(1, 200_000, 45),
            SfxEvent::ShieldHit => limited(3, 100_000, 30),
            SfxEvent::HullHit => limited(4, 100_000, 40),
            SfxEvent::Explosion => unlimited(60),
            SfxEvent::VehicleCollision => limited(5, 200_000, 35),
            SfxEvent::RockImpact => limited(6, 220_000, 30),
            SfxEvent::MenuMove => unlimited(40),
            SfxEvent::MenuConfirm => unlimited(50),
        }
    }

    pub fn playback(self) -> (p: Playback)
        ensures
            p == self.playback_spec(),
    {
        let limit = |slot: usize, min_interval_us: u64, volume_percent: u32| -> (p: Playback)
            ensures
                p == limited(slot, min_interval_us, volume_percent),
            { Playback { throttle: Some(Throttle { slot, min_interval_us }), volume_percent } };
        match self {
            SfxEvent::GunFire => limit(0, 40_000, 25),
            SfxEvent::RocketLaunch => limit(1, 200_000, 45),
            SfxEvent::ShieldHit => limit(3, 100_000, 30),
            SfxEvent::HullHit => limit(4, 100_000, 40),
            SfxEvent::Explosion => Playback { throttle: None, volume_percent: 60 },
            SfxEvent::VehicleCollision => limit(5, 200_000, 35),
            SfxEvent::RockImpact => limit(6, 220_000, 30),
            SfxEvent::MenuMove => Playback { throttle: None, volume_percent: 40 },
            SfxEvent::MenuConfirm => Playback { throttle: None, volume_percent: 50 },
        }
    }
}

/// Every limited event uses a slot inside the limiter, and no two different
/// limited events share a slot.
pub proof fn lemma_slots_in_range_and_distinct(a: SfxEvent, b: SfxEvent)
    ensures
        a.playback_spec().throttle matches Some(t) ==> t.slot < LIMITER_SLOTS,
        a.playback_spec().volume_percent <= 100,
        (a.playback_spec().throttle matches Some(ta) && b.playback_spec().throttle matches Some(tb)
            && ta.slot == tb.slot) ==> a == b,
{
}

/// Explosions, menu moves and menu confirms always play; every other event
/// is rate-limited, to at most one play per 40 to 220 ms, and every event
/// plays at a volume between 25 % and 60 %.
pub proof fn lemma_which_sounds_are_limited(e: SfxEvent)
    ensures
        e.playback_spec().throttle is None <==> (e == SfxEvent::Explosion || e == SfxEvent::MenuMove
            || e == SfxEvent::MenuConfirm),
        e.playback_spec().throttle matches Some(t) ==> 40_000 <= t.min_interval_us <= 220_000,
        25 <= e.playback_spec().volume_percent <= 60,
        e != SfxEvent::Explosion ==> e.playback_spec().volume_percent
            < SfxEvent::Explosion.playback_spec().volume_percent,
        e != SfxEvent::GunFire ==> SfxEvent::GunFire.playback_spec().volume_percent
            < e.playback_spec().volume_percent,
        SfxEvent::MenuMove.playback_spec().volume_percent < SfxEvent::MenuConfirm.playback_spec().volume_percent,
        e != SfxEvent::GunFire ==> (e.playback_spec().throttle matches Some(t) ==> t.min_interval_us
            >= 100_000),
{
}

/// Time of the last play of each limiter slot, in microseconds; `None` when
/// the slot has never played.
pub struct Limiter {
    pub last_played: [Option<u64>; 8],
}

impl Limiter {
    pub fn new() -> (l: Limiter)
        ensures
            forall|i: int| 0 <= i < LIMITER_SLOTS ==> l.last_played[i] is None,
    {
        Limiter { last_played: [None; 8] }
    }

    /// Whether a play from `slot` at time `now` is due: the slot never played,
    /// or at least `min_interval` passed since its last play. A clock that
    /// went backwards reads as not yet due.
    pub open spec fn due(self, slot: usize, now: u64, min_interval: u64) -> bool {
        match self.last_played[slot as int] {
            None => true,
            Some(last) => now >= last && now - last >= min_interval,
        }
    }

    /// Records and allows a play from `slot` at time `now` when it is due;
    /// otherwise refuses and changes nothing.
    pub fn try_play(&mut self, slot: usize, now: u64, min_interval: u64) -> (ok: bool)
        requires
            slot < LIMITER_SLOTS,
        ensures
            ok == old(self).due(slot, now, min_interval),
            ok ==> final(self).last_played@ == old(self).last_played@.update(slot as int, Some(now)),
            !ok ==> *final(self) == *old(self),
    {
        let due = match self.last_played[slot] {
            None => true,
            Some(last) => now >= last && now - last >= min_interval,
        };
        if due {
            self.last_played[slot] = Some(now);
        }
        due
    }
}

/// A slot that has never played is due at any time, whatever the interval:
/// the first play of every sound is heard.
pub proof fn lemma_never_played_is_due(l: Limiter, slot: usize, now: u64, min_interval: u64)
    requires
        slot < LIMITER_SLOTS,
        l.last_played[slot as int] is None,
    ensures
        l.due(slot, now, min_interval),
{
}

/// Waiting never makes a due slot undue, and a zero interval is due at any
/// time not before the last play.
pub proof fn lemma_due_stays_due(l: Limiter, slot: usize, now: u64, later: u64, min_interval: u64)
    requires
        slot < LIMITER_SLOTS,
    ensures
        l.due(slot, now, min_interval) && later >= now ==> l.due(slot, later, min_interval),
        (l.last_played[slot as int] matches Some(last) && now >= last) ==> l.due(slot, now, 0),
        l.due(slot, now, min_interval) ==> l.due(slot, now, 0),
{
}

/// Two plays from one slot are never closer than the slot's interval: once a
/// slot played at `now`, a play at `later` is due exactly when `later` is at
/// least `min_interval` past `now`.
pub proof fn lemma_plays_are_spaced(l: Limiter, slot: usize, now: u64, later: u64, min_interval: u64)
    requires
        slot < LIMITER_SLOTS,
        l.last_played[slot as int] == Some(now),
    ensures
        l.due(slot, later, min_interval) <==> later >= now + min_interval,
{
}

} // verus!

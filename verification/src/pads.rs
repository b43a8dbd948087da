//! Gamepad bookkeeping: which connected pad drives which player slot, the
//! queued rocket presses, and edge-triggered menu navigation. The pads
//! themselves are read elsewhere; this module only holds the decisions, keyed
//! by each pad's numeric id.
use vstd::prelude::*;

verus! {

/// Edge-triggered per-frame menu controls, aggregated across every connected
/// pad. Edge-triggered (not held) so a single dpad tap moves the selection by
/// exactly one step.
#[derive(Clone, Copy, PartialEq, Eq, Debug, Structural)]
pub struct MenuInput {
    pub up: bool,
    pub down: bool,
    pub left: bool,
    pub right: bool,
    /// Either face button (gun or rocket) confirms.
    pub confirm: bool,
    /// Start/Menu button — backs out, like Escape.
    pub back: bool,
}

/// One pad's dpad + A/B/Start levels on one frame.
#[derive(Clone, Copy, PartialEq, Eq, Debug, Structural)]
pub struct DpadEdge {
    pub up: bool,
    pub down: bool,
    pub left: bool,
    pub right: bool,
    pub a: bool,
    pub b: bool,
    pub start: bool,
}

/// A level that is down now and was not down before.
pub open spec fn rose(prev: bool, now: bool) -> bool {
    now && !prev
}

/// `m` with the presses that rose between `prev` and `now` added.
pub open spec fn accumulated(m: MenuInput, prev: DpadEdge, now: DpadEdge) -> MenuInput {
    MenuInput {
        up: m.up || rose(prev.up, now.up),
        down: m.down || rose(prev.down, now.down),
        left: m.left || rose(prev.left, now.left),
        right: m.right || rose(prev.right, now.right),
        confirm: m.confirm || rose(prev.a, now.a) || rose(prev.b, now.b),
        back: m.back || rose(prev.start, now.start),
    }
}

pub open spec fn no_menu_input() -> MenuInput {
    MenuInput { up: false, down: false, left: false, right: false, confirm: false, back: false }
}

pub open spec fn released() -> DpadEdge {
    DpadEdge { up: false, down: false, left: false, right: false, a: false, b: false, start: false }
}

impl Default for MenuInput {
    fn default() -> (m: MenuInput)
        ensures
            m == no_menu_input(),
    {
        MenuInput { up: false, down: false, left: false, right: false, confirm: false, back: false }
    }
}

impl Default for DpadEdge {
    fn default() -> (e: DpadEdge)
        ensures
            e == released(),
    {
        DpadEdge { up: false, down: false, left: false, right: false, a: false, b: false, start: false }
    }
}

impl MenuInput {
    /// Adds the presses of one pad that rose between `prev` and `now`.
    pub fn accumulate(&mut self, prev: DpadEdge, now: DpadEdge)
        ensures
            *final(self) == accumulated(*old(self), prev, now),
    {
        self.up = self.up || (now.up && !prev.up);
        self.down = self.down || (now.down && !prev.down);
        self.left = self.left || (now.left && !prev.left);
        self.right = self.right || (now.right && !prev.right);
        self.confirm = self.confirm || (now.a && !prev.a) || (now.b && !prev.b);
        self.back = self.back || (now.start && !prev.start);
    }
}

/// A held button registers once: accumulating the same levels twice adds
/// nothing, and accumulation never clears a press already seen this frame.
pub proof fn lemma_held_button_fires_once(m: MenuInput, prev: DpadEdge, now: DpadEdge)
    ensures
        accumulated(m, now, now) == m,
        accumulated(accumulated(m, prev, now), now, now) == accumulated(m, prev, now),
        m.up ==> accumulated(m, prev, now).up,
        m.confirm ==> accumulated(m, prev, now).confirm,
        m.back ==> accumulated(m, prev, now).back,
{
}

/// Each gesture rises only from its own button: a direction from the same
/// dpad direction, confirm from A or B, back from Start, each only on the
/// frame the button goes down; a flag already set stays set.
pub proof fn lemma_each_gesture_from_its_own_button(m: MenuInput, prev: DpadEdge, now: DpadEdge)
    ensures
        accumulated(m, prev, now).up == (m.up || (now.up && !prev.up)),
        accumulated(m, prev, now).down == (m.down || (now.down && !prev.down)),
        accumulated(m, prev, now).left == (m.left || (now.left && !prev.left)),
        accumulated(m, prev, now).right == (m.right || (now.right && !prev.right)),
        accumulated(m, prev, now).confirm == (m.confirm || (now.a && !prev.a) || (now.b && !prev.b)),
        accumulated(m, prev, now).back == (m.back || (now.start && !prev.start)),
        (!m.right && !now.right) ==> !accumulated(m, prev, now).right,
        (!m.left && !now.left) ==> !accumulated(m, prev, now).left,
        (!m.up && !now.up) ==> !accumulated(m, prev, now).up,
        (!m.down && !now.down) ==> !accumulated(m, prev, now).down,
{
}

/// Direction of a pair of opposing buttons: +1 when only `pos` is down,
/// −1 when only `neg` is, 0 otherwise.
pub fn axis(neg: bool, pos: bool) -> (d: i8)
    ensures
        d == (if pos { 1int } else { 0 }) - (if neg { 1int } else { 0 }),
{
    let p: i8 = if pos { 1 } else { 0 };
    let n: i8 = if neg { 1 } else { 0 };
    p - n
}

/// Player-slot assignment of connected pads (by id), rocket presses queued
/// between frames, and the previous menu levels of each slot.
pub struct PadSlots {
    assigned: [Option<u64>; 2],
    fire_rocket_pending: [bool; 2],
    menu_prev: [DpadEdge; 2],
}

/// No pad id is bound to both slots.
pub open spec fn no_shared_pad(a: Seq<Option<u64>>) -> bool {
    a[0] is Some && a[1] is Some ==> a[0] != a[1]
}

/// The first free slot in `a`, if any.
pub open spec fn first_free(a: Seq<Option<u64>>) -> Option<usize> {
    if a[0] is None {
        Some(0usize)
    } else if a[1] is None {
        Some(1usize)
    } else {
        None
    }
}

impl PadSlots {
    /// No pad drives both slots.
    #[verifier::type_invariant]
    spec fn distinct(self) -> bool {
        self.assigned[0] is Some && self.assigned[1] is Some ==> self.assigned[0] != self.assigned[1]
    }

    /// Pad id bound to each slot.
    pub closed spec fn slots(self) -> Seq<Option<u64>> {
        self.assigned@
    }

    /// Whether a rocket press is queued for each slot.
    pub closed spec fn pending(self) -> Seq<bool> {
        self.fire_rocket_pending@
    }

    /// Levels each slot's pad showed on the previous menu frame.
    pub closed spec fn prev_levels(self) -> Seq<DpadEdge> {
        self.menu_prev@
    }

    /// Each of the three per-slot views has one entry per slot.
    pub open spec fn two_slots(self) -> bool {
        &&& self.slots().len() == 2
        &&& self.pending().len() == 2
        &&& self.prev_levels().len() == 2
    }

    /// Every value has one entry per slot in each view.
    pub proof fn lemma_two_slots(p: &PadSlots)
        ensures
            p.two_slots(),
    {
    }

    pub fn new() -> (p: PadSlots)
        ensures
            p.slots() == seq![None::<u64>, None::<u64>],
            p.two_slots(),
            no_shared_pad(p.slots()),
            p.pending() == seq![false, false],
            p.prev_levels() == seq![released(), released()],
    {
        let r = DpadEdge::default();
        let p = PadSlots { assigned: [None, None], fire_rocket_pending: [false, false], menu_prev: [r, r] };
        assert(p.assigned@ =~= seq![None::<u64>, None::<u64>]);
        assert(p.fire_rocket_pending@ =~= seq![false, false]);
        assert(p.menu_prev@ =~= seq![released(), released()]);
        p
    }

    /// Pad id driving slot `idx`.
    pub fn slot(&self, idx: usize) -> (id: Option<u64>)
        requires
            idx < 2,
        ensures
            id == self.slots()[idx as int],
            self.two_slots(),
            no_shared_pad(self.slots()),
    {
        proof {
            use_type_invariant(self);
        }
        self.assigned[idx]
    }

    /// Binds a newly connected pad to the first free slot, unless it is
    /// already bound or both slots are taken. Returns the slot it got.
    pub fn connect(&mut self, id: u64) -> (slot: Option<usize>)
        ensures
            old(self).two_slots(),
            final(self).two_slots(),
            old(self).slots().contains(Some(id)) ==> slot is None,
            !old(self).slots().contains(Some(id)) ==> slot == first_free(old(self).slots()),
            slot matches Some(s) ==> final(self).slots() == old(self).slots().update(s as int, Some(id)),
            slot is None ==> final(self).slots() == old(self).slots(),
            no_shared_pad(final(self).slots()),
            final(self).pending() == old(self).pending(),
            final(self).prev_levels() == old(self).prev_levels(),
    {
        proof {
            use_type_invariant(&*self);
        }
        let taken = self.assigned[0] == Some(id) || self.assigned[1] == Some(id);
        proof {
            assert(old(self).slots().contains(Some(id)) == taken) by {
                if taken {
                    if self.assigned[0] == Some(id) {
                        assert(self.slots()[0] == Some(id));
                    } else {
                        assert(self.slots()[1] == Some(id));
                    }
                }
            }
        }
        let r = if taken {
            None
        } else if self.assigned[0].is_none() {
            self.assigned[0] = Some(id);
            assert(self.assigned@ =~= old(self).slots().update(0, Some(id)));
            Some(0)
        } else if self.assigned[1].is_none() {
            self.assigned[1] = Some(id);
            assert(self.assigned@ =~= old(self).slots().update(1, Some(id)));
            Some(1)
        } else {
            None
        };
        proof {
            use_type_invariant(&*self);
        }
        r
    }

    /// Frees every slot bound to a disconnected pad; reports which slots were
    /// freed.
    pub fn disconnect(&mut self, id: u64) -> (freed: [bool; 2])
        ensures
            old(self).two_slots(),
            final(self).two_slots(),
            forall|i: int| 0 <= i < 2 ==> freed[i] == (old(self).slots()[i] == Some(id)),
            forall|i: int|
                0 <= i < 2 ==> final(self).slots()[i] == (if old(self).slots()[i] == Some(id) {
                    None
                } else {
                    old(self).slots()[i]
                }),
            final(self).pending() == old(self).pending(),
            final(self).prev_levels() == old(self).prev_levels(),
            no_shared_pad(final(self).slots()),
    {
        proof {
            use_type_invariant(&*self);
        }
        let f0 = self.assigned[0] == Some(id);
        let f1 = self.assigned[1] == Some(id);
        if f0 {
            self.assigned[0] = None;
        }
        if f1 {
            self.assigned[1] = None;
        }
        proof {
            use_type_invariant(&*self);
        }
        [f0, f1]
    }

    /// Queues a rocket press for every slot the pressing pad drives.
    pub fn rocket_pressed(&mut self, id: u64)
        ensures
            old(self).two_slots(),
            final(self).two_slots(),
            final(self).slots() == old(self).slots(),
            final(self).prev_levels() == old(self).prev_levels(),
            forall|i: int|
                0 <= i < 2 ==> final(self).pending()[i] == (old(self).pending()[i] || old(self).slots()[i]
                    == Some(id)),
    {
        proof {
            use_type_invariant(&*self);
        }
        if self.assigned[0] == Some(id) {
            self.fire_rocket_pending[0] = true;
        }
        if self.assigned[1] == Some(id) {
            self.fire_rocket_pending[1] = true;
        }
    }

    /// Drains slot `idx`'s queued rocket press: true once per press.
    pub fn take_rocket(&mut self, idx: usize) -> (fire: bool)
        requires
            idx < 2,
        ensures
            old(self).two_slots(),
            final(self).two_slots(),
            fire == old(self).pending()[idx as int],
            final(self).pending() == old(self).pending().update(idx as int, false),
            final(self).slots() == old(self).slots(),
            final(self).prev_levels() == old(self).prev_levels(),
    {
        proof {
            use_type_invariant(&*self);
        }
        let fire = self.fire_rocket_pending[idx];
        self.fire_rocket_pending[idx] = false;
        fire
    }

    /// Discards any rocket press queued while a menu was up, so confirming a
    /// menu with the rocket button does not fire on the match's first frame.
    pub fn reset_match_input(&mut self)
        ensures
            old(self).two_slots(),
            final(self).two_slots(),
            final(self).pending() == seq![false, false],
            final(self).slots() == old(self).slots(),
            final(self).prev_levels() == old(self).prev_levels(),
    {
        proof {
            use_type_invariant(&*self);
        }
        self.fire_rocket_pending = [false, false];
        assert(self.fire_rocket_pending@ =~= seq![false, false]);
    }

    /// Aggregates the rising edges of every assigned pad into this frame's
    /// menu gestures. `now[i]` holds the levels of slot `i`'s pad; slots with
    /// no pad are skipped and keep their previous levels.
    pub fn menu_input(&mut self, now: [DpadEdge; 2]) -> (m: MenuInput)
        ensures
            old(self).two_slots(),
            final(self).two_slots(),
            m == ({
                let s0 = if old(self).slots()[0] is Some {
                    accumulated(no_menu_input(), old(self).prev_levels()[0], now[0])
                } else {
                    no_menu_input()
                };
                if old(self).slots()[1] is Some {
                    accumulated(s0, old(self).prev_levels()[1], now[1])
                } else {
                    s0
                }
            }),
            forall|i: int|
                0 <= i < 2 ==> final(self).prev_levels()[i] == (if old(self).slots()[i] is Some {
                    now[i]
                } else {
                    old(self).prev_levels()[i]
                }),
            final(self).slots() == old(self).slots(),
            final(self).pending() == old(self).pending(),
    {
        proof {
            use_type_invariant(&*self);
        }
        let mut out = MenuInput::default();
        if self.assigned[0].is_some() {
            out.accumulate(self.menu_prev[0], now[0]);
            self.menu_prev[0] = now[0];
        }
        if self.assigned[1].is_some() {
            out.accumulate(self.menu_prev[1], now[1]);
            self.menu_prev[1] = now[1];
        }
        out
    }

    /// True while any assigned pad holds Start (`start[i]` is slot `i`'s
    /// level); level-triggered, for hold-to-quit.
    pub fn start_held(&self, start: [bool; 2]) -> (held: bool)
        ensures
            self.two_slots(),
            held == ((self.slots()[0] is Some && start[0]) || (self.slots()[1] is Some && start[1])),
    {
        (self.assigned[0].is_some() && start[0]) || (self.assigned[1].is_some() && start[1])
    }
}

/// A rocket press fires once: after a pad bound to slot `idx` presses, the
/// slot's first drain reports the press and a second drain reports nothing.
pub proof fn lemma_rocket_press_fires_once(slots: Seq<Option<u64>>, pending: Seq<bool>, id: u64, idx: int)
    requires
        slots.len() == 2,
        pending.len() == 2,
        0 <= idx < 2,
        slots[idx] == Some(id),
    ensures
        ({
            let pressed = Seq::new(2, |i: int| pending[i] || slots[i] == Some(id));
            &&& pressed[idx]
            &&& !pressed.update(idx, false)[idx]
        }),
{
}

/// A pad that connects to a free slot and then disconnects leaves the slot
/// assignment as it was.
pub proof fn lemma_connect_then_disconnect(before: Seq<Option<u64>>, id: u64, s: usize)
    requires
        before.len() == 2,
        !before.contains(Some(id)),
        first_free(before) == Some(s),
    ensures
        ({
            let mid = before.update(s as int, Some(id));
            Seq::new(2, |i: int| if mid[i] == Some(id) { None } else { mid[i] }) =~= before
        }),
{
    assert forall|i: int| 0 <= i < 2 && i != s implies before[i] != Some(id) by {
        assert(before[i] != Some(id));
    }
}

} // verus!

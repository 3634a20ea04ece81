//! The things that can be fished out of the water, and how they drift.

use vstd::prelude::*;

verus! {

/// Width of the turbofish sprite at full scale.
pub const TURBOFISH_WIDTH: i32 = 274;

/// Height of the turbofish sprite at full scale.
pub const TURBOFISH_HEIGHT: i32 = 86;

/// Leftmost x-position at which a fishable is kept.
pub const LEFT_BOUND: i32 = -3000;

/// Rightmost x-position at which a fishable is kept.
pub const RIGHT_BOUND: i32 = 4000;

/// Different types of things you can fish out. They look and behave differently.
#[derive(Clone, Copy, Debug, PartialEq, Eq)]
pub enum FishableType {
    Turbofish,
    Rustcrab,
}

/// A single object that can be fished out of the water.
///
/// The scale is held in hundredths: 25 is a quarter of the sprite's size.
#[derive(Clone, Copy, Debug, PartialEq, Eq)]
pub struct Fishable {
    pub position: (i32, i32),
    pub scale_percent: i32,
    pub velocity: (i32, i32),
    pub category: FishableType,
    pub color: i32,
}

impl Fishable {
    /// The x-position after one tick. Both components of the velocity are
    /// added to x; y never changes.
    pub open spec fn next_x(self) -> int {
        self.position.0 + self.velocity.0 + self.velocity.1
    }

    /// Whether the fishable is still within the horizontal bounds after one tick.
    pub open spec fn stays(self) -> bool {
        LEFT_BOUND <= self.next_x() <= RIGHT_BOUND
    }

    /// The fishable after one tick, for one that stays.
    pub open spec fn moved(self) -> Fishable {
        Fishable {
            position: (self.next_x() as i32, self.position.1),
            scale_percent: self.scale_percent,
            velocity: self.velocity,
            category: self.category,
            color: self.color,
        }
    }

    /// What a game holds of its fishables between ticks: each is within the
    /// horizontal bounds, and has the height, speed, size and color that a
    /// fishable is made with.
    pub open spec fn in_play(self) -> bool {
        &&& LEFT_BOUND <= self.position.0 <= RIGHT_BOUND
        &&& 10 <= self.position.1 < 1000
        &&& -6 < self.velocity.0 < 6
        &&& self.velocity.1 == 0
        &&& (self.scale_percent == 25 || self.scale_percent == 50)
        &&& 1 <= self.color < 6
    }

    /// Moves the fishable by one tick, or drops it when that takes it out of
    /// the horizontal bounds.
    pub fn drift(&self) -> (r: Option<Fishable>)
        ensures
            r == (if self.stays() { Some(self.moved()) } else { None }),
    {
        let x: i64 = self.position.0 as i64 + self.velocity.0 as i64 + self.velocity.1 as i64;
        if LEFT_BOUND as i64 <= x && x <= RIGHT_BOUND as i64 {
            Some(
                Fishable {
                    position: (x as i32, self.position.1),
                    scale_percent: self.scale_percent,
                    velocity: self.velocity,
                    category: self.category,
                    color: self.color,
                },
            )
        } else {
            None
        }
    }
}

/// The fishables left after one tick, in their old order: each one that stays,
/// moved.
pub open spec fn survivors(s: Seq<Fishable>) -> Seq<Fishable>
    decreases s.len(),
{
    if s.len() == 0 {
        Seq::empty()
    } else {
        let rest = survivors(s.drop_last());
        if s.last().stays() {
            rest.push(s.last().moved())
        } else {
            rest
        }
    }
}

/// Every survivor is some old fishable that stays, moved; and no more
/// fishables survive than there were.
pub proof fn lemma_survivors_origin(s: Seq<Fishable>)
    ensures
        survivors(s).len() <= s.len(),
        forall|j: int|
            0 <= j < survivors(s).len() ==> exists|i: int|
                0 <= i < s.len() && s[i].stays() && #[trigger] survivors(s)[j] == s[i].moved(),
    decreases s.len(),
{
    if s.len() > 0 {
        let front = s.drop_last();
        lemma_survivors_origin(front);
        assert forall|j: int| 0 <= j < survivors(s).len() implies exists|i: int|
            0 <= i < s.len() && s[i].stays() && #[trigger] survivors(s)[j] == s[i].moved() by {
            if j < survivors(front).len() {
                let i = choose|i: int|
                    0 <= i < front.len() && front[i].stays() && survivors(front)[j]
                        == front[i].moved();
                assert(s[i] == front[i]);
            } else {
                assert(survivors(s)[j] == s[s.len() - 1].moved());
            }
        }
    }
}

/// Every fishable that stays is among the survivors, moved.
pub proof fn lemma_survivors_complete(s: Seq<Fishable>, i: int)
    requires
        0 <= i < s.len(),
        s[i].stays(),
    ensures
        survivors(s).contains(s[i].moved()),
    decreases s.len(),
{
    let front = s.drop_last();
    if i == s.len() - 1 {
        assert(survivors(s).last() == s[i].moved());
    } else {
        lemma_survivors_complete(front, i);
        let j = choose|j: int| 0 <= j < survivors(front).len() && survivors(front)[j] == front[i].moved();
        assert(survivors(s)[j] == s[i].moved());
    }
}

/// A tick keeps fishables in play.
pub proof fn lemma_survivors_in_play(s: Seq<Fishable>)
    requires
        forall|i: int| 0 <= i < s.len() ==> (#[trigger] s[i]).in_play(),
    ensures
        forall|j: int| 0 <= j < survivors(s).len() ==> (#[trigger] survivors(s)[j]).in_play(),
{
    lemma_survivors_origin(s);
}

/// Moves every fishable by one tick and removes those that leave the
/// horizontal bounds. The others keep their order.
pub fn advance_and_cull(fishables: &mut Vec<Fishable>)
    ensures
        final(fishables)@ == survivors(old(fishables)@),
{
    let mut kept: Vec<Fishable> = Vec::new();
    let n: usize = fishables.len();
    let mut i: usize = 0;
    while i < n
        invariant
            i <= n,
            n == fishables@.len(),
            fishables@ == old(fishables)@,
            kept@ == survivors(fishables@.take(i as int)),
        decreases n - i,
    {
        proof {
            assert(fishables@.take(i + 1).drop_last() == fishables@.take(i as int));
        }
        match fishables[i].drift() {
            Some(f) => {
                kept.push(f);
            },
            None => {},
        }
        i = i + 1;
    }
    proof {
        assert(fishables@.take(n as int) == fishables@);
    }
    *fishables = kept;
}

} // verus!

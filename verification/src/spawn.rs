//! How a new fishable is made from five random draws.

use crate::fishable::{Fishable, FishableType};
use rand::distributions::IndependentSample;
use vstd::prelude::*;

verus! {

/// The thread-local random number generator of `rand`. Nothing is known of
/// what it holds.
#[verifier::external_type_specification]
#[verifier::external_body]
pub struct ExThreadRng(rand::ThreadRng);

/// The five draws that decide a new fishable.
#[derive(Clone, Copy, Debug, PartialEq, Eq)]
pub struct SpawnRoll {
    /// 0 for a fishable that enters on the left, 1 for one on the right.
    pub side: i32,
    /// How far from the side's anchor it enters.
    pub x_offset: i32,
    /// Its height.
    pub y: i32,
    /// How far it moves each tick, towards the other side.
    pub speed: i32,
    /// Its color.
    pub color: i32,
}

/// The x-position round which fishables enter on the left.
pub const LEFT_ANCHOR: i32 = -1500;

/// The x-position round which fishables enter on the right.
pub const RIGHT_ANCHOR: i32 = 3000;

/// The scale, in hundredths, of a fishable that drifts in.
pub const SPAWN_SCALE_PERCENT: i32 = 25;

impl SpawnRoll {
    /// Each draw lies in the range it is drawn from.
    pub open spec fn valid(self) -> bool {
        &&& 0 <= self.side < 2
        &&& -1000 <= self.x_offset < 1000
        &&& 10 <= self.y < 1000
        &&& 1 <= self.speed < 6
        &&& 1 <= self.color < 6
    }

    /// The turbofish that the draws decide: it enters round the anchor of its
    /// side and moves towards the other side.
    pub open spec fn fishable(self) -> Fishable {
        if self.side == 0 {
            Fishable {
                position: ((LEFT_ANCHOR + self.x_offset) as i32, self.y),
                scale_percent: SPAWN_SCALE_PERCENT,
                velocity: (self.speed, 0),
                category: FishableType::Turbofish,
                color: self.color,
            }
        } else {
            Fishable {
                position: ((RIGHT_ANCHOR + self.x_offset) as i32, self.y),
                scale_percent: SPAWN_SCALE_PERCENT,
                velocity: ((-self.speed) as i32, 0),
                category: FishableType::Turbofish,
                color: self.color,
            }
        }
    }

    /// Whether each draw lies in its range.
    pub fn is_valid(&self) -> (b: bool)
        ensures
            b == self.valid(),
    {
        0 <= self.side && self.side < 2 && -1000 <= self.x_offset && self.x_offset < 1000 && 10
            <= self.y && self.y < 1000 && 1 <= self.speed && self.speed < 6 && 1 <= self.color
            && self.color < 6
    }

    /// Makes the fishable that the draws decide.
    pub fn spawn(&self) -> (f: Fishable)
        requires
            self.valid(),
        ensures
            f == self.fishable(),
            f.in_play(),
    {
        if self.side == 0 {
            Fishable {
                position: (LEFT_ANCHOR + self.x_offset, self.y),
                scale_percent: SPAWN_SCALE_PERCENT,
                velocity: (self.speed, 0),
                category: FishableType::Turbofish,
                color: self.color,
            }
        } else {
            Fishable {
                position: (RIGHT_ANCHOR + self.x_offset, self.y),
                scale_percent: SPAWN_SCALE_PERCENT,
                velocity: (-self.speed, 0),
                category: FishableType::Turbofish,
                color: self.color,
            }
        }
    }

    /// Draws the five numbers from `rng`: the side, then the offset, the
    /// height, the speed and the color.
    pub fn sample(rng: &mut rand::ThreadRng) -> (roll: SpawnRoll)
        ensures
            roll.valid(),
    {
        let side: i32 = sample_between(rng, 0, 2);
        let x_offset: i32 = sample_between(rng, -1000, 1000);
        let y: i32 = sample_between(rng, 10, 1000);
        let speed: i32 = sample_between(rng, 1, 6);
        let color: i32 = sample_between(rng, 1, 6);
        SpawnRoll { side, x_offset, y, speed, color }
    }
}

/// Calls `rand::thread_rng`, which hands out the calling thread's generator.
/// Nothing is claimed of the generator. The call panics where the system
/// gives the generator no entropy to start from.
#[verifier::external_body]
pub(crate) fn thread_rng() -> (rng: rand::ThreadRng) {
    rand::thread_rng()
}

/// Calls `rand::distributions::Range::new(low, high)` and draws one number
/// from that range with `ind_sample`. `Range::new` panics unless
/// `low < high`; for integers the number drawn is at least `low` and below
/// `high`. Which number it is depends on the generator: nothing more is
/// claimed.
#[verifier::external_body]
pub(crate) fn sample_between(rng: &mut rand::ThreadRng, low: i32, high: i32) -> (r: i32)
    requires
        low < high,
    ensures
        low <= r < high,
{
    rand::distributions::Range::new(low, high).ind_sample(rng)
}

} // verus!

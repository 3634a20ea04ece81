//! The game: its state machine, the depth of the line, and the fishables.

use crate::fishable::{
    advance_and_cull, lemma_survivors_in_play, lemma_survivors_origin, survivors, Fishable,
    FishableType,
};
use crate::frame::{draw_frame, frame, DrawCommand};
use crate::spawn::{thread_rng, SpawnRoll};
use vstd::prelude::*;

verus! {

/// Depth of the line when a game begins.
pub const START_DEPTH: i32 = 200;

/// By how much the line's depth changes each tick, down or up.
pub const LINE_SPEED: i32 = 3;

/// The simulation adds no fishable once this many are in the water.
pub const MAX_FISHABLES: usize = 50;

/// The state machine.
///
/// `Start`: the game has not begun. `Falling`: the line is falling (the
/// player is not holding space). `Reeling`: the line is reeled up (the player
/// is holding space). `Caught`: something is caught and is reeled in; the
/// index of what was caught is stored with it.
#[derive(Clone, Copy, Debug, PartialEq, Eq)]
pub enum GameState {
    Start,
    Falling,
    Reeling,
    Caught(i32),
}

/// A game as a mathematical value.
pub struct GameView {
    pub state: GameState,
    pub line_depth: int,
    pub fall_rate: int,
    pub fishables: Seq<Fishable>,
}

/// The game: the state machine, the line and the fishables in the water.
pub struct Game {
    state: GameState,
    line_depth: i32,
    fall_rate: i32,
    fishables: Vec<Fishable>,
}

/// The fishable that is put in the water when the game begins.
pub open spec fn starter() -> Fishable {
    Fishable {
        position: (100, 100),
        scale_percent: 50,
        velocity: (0, 0),
        category: FishableType::Turbofish,
        color: 1,
    }
}

/// The fishables after a tick's survivors are restocked: one more fishable,
/// decided by `roll`, unless the water is full.
pub open spec fn restocked(kept: Seq<Fishable>, roll: SpawnRoll) -> Seq<Fishable> {
    if kept.len() < MAX_FISHABLES {
        kept.push(roll.fishable())
    } else {
        kept
    }
}

impl GameView {
    /// A game that has not begun.
    pub open spec fn initial() -> GameView {
        GameView {
            state: GameState::Start,
            line_depth: START_DEPTH as int,
            fall_rate: 0,
            fishables: Seq::empty(),
        }
    }

    /// The fall rate is the one that the state sets, and every fishable is in
    /// play.
    pub open spec fn wf(self) -> bool {
        &&& match self.state {
            GameState::Start => self.fall_rate == 0,
            GameState::Falling => self.fall_rate == LINE_SPEED,
            GameState::Reeling => self.fall_rate == -LINE_SPEED,
            GameState::Caught(_) => self.fall_rate == -LINE_SPEED,
        }
        &&& forall|i: int| 0 <= i < self.fishables.len() ==> (#[trigger] self.fishables[i]).in_play()
    }

    /// The index of a fishable that the end of the line touches, if there is
    /// one. As yet the line touches nothing.
    pub open spec fn collision(self) -> Option<i32> {
        None
    }

    /// The game with the state `Falling`.
    pub open spec fn falling(self) -> GameView {
        GameView { state: GameState::Falling, fall_rate: LINE_SPEED as int, ..self }
    }

    /// The game with the state `Reeling`.
    pub open spec fn reeling(self) -> GameView {
        GameView { state: GameState::Reeling, fall_rate: -LINE_SPEED, ..self }
    }

    /// The game with the state `Caught`, for the fishable at `index`.
    pub open spec fn caught(self, index: i32) -> GameView {
        GameView { state: GameState::Caught(index), fall_rate: -LINE_SPEED, ..self }
    }

    /// The game with the line moved by the fall rate.
    pub open spec fn deeper(self) -> GameView {
        GameView { line_depth: self.line_depth + self.fall_rate, ..self }
    }

    /// The game with the state `Caught` where `hit` names a fishable,
    /// unchanged where it names none.
    pub open spec fn hooked(self, hit: Option<i32>) -> GameView {
        match hit {
            Some(index) => self.caught(index),
            None => self,
        }
    }

    /// One update, given what the collision check found and whether space is
    /// held.
    ///
    /// In `Start` the first fishable is put in the water and the line begins
    /// to fall. In every other state the line first moves by the fall rate.
    /// While it falls or is reeled in, a hit then hooks a fishable; after
    /// that, a falling line is reeled in when space is held, and a line that
    /// was being reeled in falls when space is not held.
    pub open spec fn updated_with(self, hit: Option<i32>, space: bool) -> GameView {
        match self.state {
            GameState::Start => GameView {
                fishables: self.fishables.push(starter()),
                ..self
            }.falling(),
            GameState::Falling => {
                let next = self.deeper().hooked(hit);
                if space {
                    next.reeling()
                } else {
                    next
                }
            },
            GameState::Reeling => {
                let next = self.deeper().hooked(hit);
                if !space {
                    next.falling()
                } else {
                    next
                }
            },
            GameState::Caught(_) => self.deeper(),
        }
    }

    /// One update, given whether space is held.
    pub open spec fn updated(self, space: bool) -> GameView {
        self.updated_with(self.deeper().collision(), space)
    }

    /// Whether the depth after the next update fits the depth's type.
    pub open spec fn can_update(self) -> bool {
        self.state == GameState::Start || i32::MIN <= self.line_depth + self.fall_rate <= i32::MAX
    }

    /// The commands that draw the game in a window of the given width.
    pub open spec fn frame(self, window_width: i32) -> Seq<DrawCommand> {
        frame(window_width, self.line_depth, self.fishables)
    }

    /// One tick of the fishables: each moves, those out of bounds leave, and
    /// the water is restocked with what `roll` decides.
    pub open spec fn ticked(self, roll: SpawnRoll) -> GameView {
        GameView { fishables: restocked(survivors(self.fishables), roll), ..self }
    }
}

impl View for Game {
    type V = GameView;

    closed spec fn view(&self) -> GameView {
        GameView {
            state: self.state,
            line_depth: self.line_depth as int,
            fall_rate: self.fall_rate as int,
            fishables: self.fishables@,
        }
    }
}

impl Game {
    /// The game's invariant: see [`GameView::wf`].
    pub open spec fn wf(&self) -> bool {
        self@.wf()
    }

    /// A game that has not begun: the line hangs at its first depth and the
    /// water is empty.
    pub fn new() -> (game: Game)
        ensures
            game.wf(),
            game@ == GameView::initial(),
    {
        Game { state: GameState::Start, line_depth: START_DEPTH, fall_rate: 0, fishables: Vec::new() }
    }

    /// Lets the line fall.
    fn start_falling(&mut self)
        ensures
            final(self)@ == old(self)@.falling(),
    {
        self.state = GameState::Falling;
        self.fall_rate = LINE_SPEED;
    }

    /// Switches to reeling the line in.
    fn start_reeling(&mut self)
        ensures
            final(self)@ == old(self)@.reeling(),
    {
        self.state = GameState::Reeling;
        self.fall_rate = -LINE_SPEED;
    }

    /// Switches to the caught state with the given fishable index.
    fn start_caught(&mut self, index: i32)
        ensures
            final(self)@ == old(self)@.caught(index),
    {
        self.state = GameState::Caught(index);
        self.fall_rate = -LINE_SPEED;
    }

    /// Moves the end of the line by the fall rate.
    fn update_depth(&mut self)
        requires
            i32::MIN <= old(self)@.line_depth + old(self)@.fall_rate <= i32::MAX,
        ensures
            final(self)@ == old(self)@.deeper(),
    {
        self.line_depth = self.line_depth + self.fall_rate;
    }

    /// The index of a fishable that the end of the line touches, if there is
    /// one. As yet the line touches nothing.
    pub fn check_collisions(&self) -> (hit: Option<i32>)
        ensures
            hit == self@.collision(),
            hit is None,
    {
        None
    }

    /// Whether the next update asks if space is held: it does while the line
    /// falls or is reeled in.
    pub fn reads_input(&self) -> (b: bool)
        ensures
            b == (self@.state == GameState::Falling || self@.state == GameState::Reeling),
            !b ==> self@.updated(true) == self@.updated(false),
    {
        match self.state {
            GameState::Falling => true,
            GameState::Reeling => true,
            _ => false,
        }
    }

    /// Whether the depth after the next update fits the depth's type, as
    /// `update` requires.
    pub fn can_update(&self) -> (b: bool)
        ensures
            b == self@.can_update(),
    {
        match self.state {
            GameState::Start => true,
            _ => self.line_depth.checked_add(self.fall_rate).is_some(),
        }
    }

    /// Advances the game by one frame. `space_pressed` says whether the
    /// player holds space.
    pub fn update(&mut self, space_pressed: bool)
        requires
            old(self).wf(),
            old(self)@.can_update(),
        ensures
            final(self).wf(),
            final(self)@ == old(self)@.updated(space_pressed),
    {
        match self.state {
            GameState::Start => {
                self.fishables.push(
                    Fishable {
                        position: (100, 100),
                        scale_percent: 50,
                        velocity: (0, 0),
                        category: FishableType::Turbofish,
                        color: 1,
                    },
                );
                self.start_falling();
            },
            GameState::Falling => {
                self.update_depth();
                match self.check_collisions() {
                    Some(index) => {
                        self.start_caught(index);
                    },
                    None => {},
                }
                if space_pressed {
                    self.start_reeling();
                }
            },
            GameState::Reeling => {
                self.update_depth();
                match self.check_collisions() {
                    Some(index) => {
                        self.start_caught(index);
                    },
                    None => {},
                }
                if !space_pressed {
                    self.start_falling();
                }
            },
            GameState::Caught(_) => {
                self.update_depth();
            },
        }
    }

    /// Moves every fishable by one tick and removes those that leave the
    /// horizontal bounds.
    fn cull(&mut self)
        requires
            old(self).wf(),
        ensures
            final(self).wf(),
            final(self)@ == (GameView { fishables: survivors(old(self)@.fishables), ..old(self)@ }),
    {
        proof {
            lemma_survivors_in_play(self.fishables@);
        }
        advance_and_cull(&mut self.fishables);
    }

    /// One tick of the fishables with the draws given: each fishable moves,
    /// those that leave the horizontal bounds are removed, and unless the
    /// water is full the fishable that `roll` decides is added at the end.
    pub fn step_fishables(&mut self, roll: SpawnRoll)
        requires
            old(self).wf(),
            roll.valid(),
        ensures
            final(self).wf(),
            final(self)@ == old(self)@.ticked(roll),
            old(self)@.fishables.len() <= MAX_FISHABLES ==> final(self)@.fishables.len()
                <= MAX_FISHABLES,
            final(self)@.fishables.len() <= old(self)@.fishables.len() + 1,
    {
        self.cull();
        proof {
            lemma_survivors_origin(old(self)@.fishables);
        }
        if self.fishables.len() < MAX_FISHABLES {
            self.fishables.push(roll.spawn());
        }
    }

    /// One tick of the fishables, with draws from the thread's random number
    /// generator. Numbers are drawn only when a fishable is added.
    pub fn update_fishables(&mut self)
        requires
            old(self).wf(),
        ensures
            final(self).wf(),
            exists|roll: SpawnRoll| #[trigger] roll.valid() && final(self)@ == old(self)@.ticked(roll),
            old(self)@.fishables.len() <= MAX_FISHABLES ==> final(self)@.fishables.len()
                <= MAX_FISHABLES,
    {
        self.cull();
        proof {
            lemma_survivors_origin(old(self)@.fishables);
        }
        let mut rng = thread_rng();
        if self.fishables.len() < MAX_FISHABLES {
            let roll = SpawnRoll::sample(&mut rng);
            self.fishables.push(roll.spawn());
            assert(roll.valid() && self@ == old(self)@.ticked(roll));
        } else {
            let ghost roll = SpawnRoll { side: 0, x_offset: 0, y: 10, speed: 1, color: 1 };
            assert(roll.valid() && self@ == old(self)@.ticked(roll));
        }
    }

    /// The commands that draw the game in a window of the given width: the
    /// line from the middle of the upper edge down to its depth, the outline
    /// of every fishable, then the sprites between their two brackets. The
    /// game is left as it is.
    pub fn draw(&self, window_width: i32) -> (out: Vec<DrawCommand>)
        requires
            self.wf(),
        ensures
            out@ == self@.frame(window_width),
    {
        draw_frame(window_width, self.line_depth, &self.fishables)
    }

    /// The state of the state machine.
    pub fn state(&self) -> (s: GameState)
        ensures
            s == self@.state,
    {
        self.state
    }

    /// How deep the end of the line hangs.
    pub fn line_depth(&self) -> (d: i32)
        ensures
            d == self@.line_depth,
    {
        self.line_depth
    }

    /// By how much the depth changes with each update.
    pub fn fall_rate(&self) -> (r: i32)
        ensures
            r == self@.fall_rate,
    {
        self.fall_rate
    }

    /// The fishables in the water, oldest first.
    pub fn fishables(&self) -> (v: &Vec<Fishable>)
        ensures
            v@ == self@.fishables,
    {
        &self.fishables
    }
}

} // verus!

//! What holds of every game, stated over the game's mathematical value.

use crate::fishable::{lemma_survivors_complete, lemma_survivors_origin, survivors, Fishable, LEFT_BOUND, RIGHT_BOUND};
use crate::game::{restocked, starter, GameState, GameView, LINE_SPEED, MAX_FISHABLES, START_DEPTH};
use crate::spawn::SpawnRoll;
use vstd::prelude::*;

verus! {

/// The game after one update for each element of `inputs`, in their order;
/// an element says whether space is held during that update.
pub open spec fn run(v: GameView, inputs: Seq<bool>) -> GameView
    decreases inputs.len(),
{
    if inputs.len() == 0 {
        v
    } else {
        run(v, inputs.drop_last()).updated(inputs.last())
    }
}

/// Whether space is never held in `inputs`.
pub open spec fn never_held(inputs: Seq<bool>) -> bool {
    forall|i: int| 0 <= i < inputs.len() ==> !#[trigger] inputs[i]
}

/// The first update of a new game, whatever the input, lets the line fall at
/// the line's speed from its first depth, and puts exactly one fishable in
/// the water, at (100, 100).
pub proof fn law_first_update_starts_falling(space: bool)
    ensures
        GameView::initial().wf(),
        GameView::initial().updated(space).state == GameState::Falling,
        GameView::initial().updated(space).fall_rate == LINE_SPEED,
        GameView::initial().updated(space).line_depth == START_DEPTH,
        GameView::initial().updated(space).fishables == seq![starter()],
        starter().position == (100i32, 100i32),
{
    assert(GameView::initial().updated(space).fishables =~= seq![starter()]);
}

/// An update in `Start` always leads to `Falling`, and adds the first
/// fishable behind those already in the water.
pub proof fn law_start_leads_to_falling(v: GameView, space: bool)
    requires
        v.state == GameState::Start,
    ensures
        v.updated(space).state == GameState::Falling,
        v.updated(space).fall_rate == LINE_SPEED,
        v.updated(space).line_depth == v.line_depth,
        v.updated(space).fishables == v.fishables.push(starter()),
{
}

/// While the line falls, an update with space held switches to reeling, with
/// the fall rate turned upwards; while the line is reeled in, an update with
/// space not held switches back to falling. With the other input the state
/// stays as it is.
pub proof fn law_space_toggles(v: GameView, space: bool)
    requires
        v.wf(),
        v.state == GameState::Falling || v.state == GameState::Reeling,
    ensures
        v.updated(space).state == (if space {
            GameState::Reeling
        } else {
            GameState::Falling
        }),
        v.updated(space).fall_rate == (if space {
            -LINE_SPEED
        } else {
            LINE_SPEED as int
        }),
        v.updated(space).line_depth == v.line_depth + v.fall_rate,
        v.updated(space).fishables == v.fishables,
{
}

/// An update keeps the invariant.
pub proof fn law_update_keeps_wf(v: GameView, space: bool)
    requires
        v.wf(),
    ensures
        v.updated(space).wf(),
{
}

/// A falling line that is never reeled in is deeper by the line's speed
/// after each update, and goes on falling.
pub proof fn law_falling_depth(v: GameView, inputs: Seq<bool>)
    requires
        v.wf(),
        v.state == GameState::Falling,
        never_held(inputs),
    ensures
        run(v, inputs).wf(),
        run(v, inputs).state == GameState::Falling,
        run(v, inputs).line_depth == v.line_depth + LINE_SPEED * inputs.len(),
        run(v, inputs).fishables == v.fishables,
    decreases inputs.len(),
{
    if inputs.len() > 0 {
        law_falling_depth(v, inputs.drop_last());
    }
}

/// A new game that is updated once to begin, and then `n` times with space
/// never held, has its line at depth 200 + 3n.
pub proof fn law_depth_after_start(inputs: Seq<bool>)
    requires
        inputs.len() > 0,
        never_held(inputs),
    ensures
        run(GameView::initial(), inputs).state == GameState::Falling,
        run(GameView::initial(), inputs).line_depth == 200 + 3 * (inputs.len() - 1),
    decreases inputs.len(),
{
    let first = inputs.take(1);
    let rest = inputs.skip(1);
    lemma_run_split(GameView::initial(), inputs, 1);
    assert(first.drop_last() =~= Seq::<bool>::empty());
    assert(run(GameView::initial(), first.drop_last()) == GameView::initial());
    assert(run(GameView::initial(), first) == GameView::initial().updated(first.last()));
    law_falling_depth(run(GameView::initial(), first), rest);
}

/// Running all of `inputs` is running the first `k` of them and then the
/// others.
pub proof fn lemma_run_split(v: GameView, inputs: Seq<bool>, k: int)
    requires
        0 <= k <= inputs.len(),
    ensures
        run(v, inputs) == run(run(v, inputs.take(k)), inputs.skip(k)),
    decreases inputs.len(),
{
    if k == inputs.len() {
        assert(inputs.take(k) =~= inputs);
        assert(inputs.skip(k) =~= Seq::<bool>::empty());
    } else {
        let front = inputs.drop_last();
        lemma_run_split(v, front, k);
        assert(front.take(k) =~= inputs.take(k));
        assert(front.skip(k) =~= inputs.skip(k).drop_last());
        assert(inputs.skip(k).last() == inputs.last());
    }
}

/// The line touches nothing: the collision check finds no fishable, and no
/// update leads into `Caught` from another state.
pub proof fn law_nothing_is_caught(v: GameView, space: bool)
    ensures
        v.collision() is None,
        !(v.state is Caught) ==> !(v.updated(space).state is Caught),
{
}

/// From a new game no sequence of updates reaches `Caught`.
pub proof fn law_caught_is_unreachable(inputs: Seq<bool>)
    ensures
        !(run(GameView::initial(), inputs).state is Caught),
    decreases inputs.len(),
{
    if inputs.len() > 0 {
        law_caught_is_unreachable(inputs.drop_last());
        law_nothing_is_caught(run(GameView::initial(), inputs.drop_last()), inputs.last());
    }
}

/// After a tick of the fishables none of them is outside the horizontal
/// bounds: every fishable whose move takes it out of the bounds is gone,
/// every other one is still there, moved, and the one that may be added
/// enters within the bounds.
pub proof fn law_tick_culls(s: Seq<Fishable>, roll: SpawnRoll)
    requires
        roll.valid(),
    ensures
        forall|j: int|
            0 <= j < restocked(survivors(s), roll).len() ==> LEFT_BOUND <= (
            #[trigger] restocked(survivors(s), roll)[j]).position.0 <= RIGHT_BOUND,
        forall|j: int|
            0 <= j < survivors(s).len() ==> exists|i: int|
                0 <= i < s.len() && s[i].stays() && #[trigger] survivors(s)[j] == s[i].moved(),
        forall|i: int|
            0 <= i < s.len() && (#[trigger] s[i]).stays() ==> survivors(s).contains(s[i].moved()),
{
    lemma_survivors_origin(s);
    assert forall|i: int| 0 <= i < s.len() && (#[trigger] s[i]).stays() implies survivors(
        s,
    ).contains(s[i].moved()) by {
        lemma_survivors_complete(s, i);
    }
}

/// A tick of the fishables adds at most one, and never takes their number
/// above the cap: with at most that many before, there are at most that many
/// after.
pub proof fn law_tick_respects_cap(s: Seq<Fishable>, roll: SpawnRoll)
    ensures
        restocked(survivors(s), roll).len() <= s.len() + 1,
        s.len() <= MAX_FISHABLES ==> restocked(survivors(s), roll).len() <= MAX_FISHABLES,
        restocked(survivors(s), roll).len() > MAX_FISHABLES ==> restocked(survivors(s), roll)
            == survivors(s),
{
    lemma_survivors_origin(s);
}

/// Drawing reads the game and nothing else: the commands are a function of
/// the game's value and the window's width, so two games of equal value are
/// drawn alike.
pub proof fn law_draw_is_a_function(a: GameView, b: GameView, window_width: i32)
    requires
        a.line_depth == b.line_depth,
        a.fishables == b.fishables,
    ensures
        a.frame(window_width) == b.frame(window_width),
{
}

} // verus!

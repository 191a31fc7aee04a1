//! What holds of the rules for every state and every draw.

use vstd::prelude::*;
use vstd::set_lib::{lemma_int_range, set_int_range};
use crate::entity::{
    FoodModel, ObjectType, PlayerModel, BASE_SPEED, POISON_ODDS, SPAWN_X, SPEED_STEP, TILE,
};
use crate::game::GameModel;
use crate::input::{KeyInput, Keycode};
use crate::rules::{is_draw, is_lane, is_poison_draw, Outcome};

verus! {

/// The numbers that the draw between food and poison can be.
pub open spec fn draws() -> Set<int> {
    Set::new(|draw: int| is_draw(draw))
}

/// Those of them that stand for poison.
pub open spec fn poison_draws() -> Set<int> {
    Set::new(|draw: int| is_draw(draw) && is_poison_draw(draw))
}

/// Of the numbers that a draw can be, one in `POISON_ODDS` stands for
/// poison. If each number is as likely as any other, so is poison one time
/// in `POISON_ODDS`.
pub proof fn lemma_poison_odds()
    ensures
        draws().finite(),
        poison_draws().finite(),
        draws().len() == POISON_ODDS,
        poison_draws().len() == 1,
{
    lemma_int_range(0, POISON_ODDS as int);
    lemma_int_range(0, 1);
    assert(draws() =~= set_int_range(0, POISON_ODDS as int));
    assert(poison_draws() =~= set_int_range(0, 1));
}

/// Items that appear on different lanes sit at different heights: the
/// lanes are as evenly used as the numbers drawn for them.
pub proof fn lemma_lanes_apart(food: FoodModel, lane: int, other: int, draw: int)
    requires
        lane != other,
    ensures
        food.respawned(lane, draw).pos.y != food.respawned(other, draw).pos.y,
{
}

/// An item that appears on one of the lanes sits exactly on that lane.
pub proof fn lemma_respawn_on_lane(food: FoodModel, lane: int, draw: int)
    requires
        is_lane(lane),
    ensures
        food.respawned(lane, draw).on_lane(),
        food.respawned(lane, draw).lane() == lane,
{
}

/// Before the first round, and whenever it has been reset, the item is on
/// the first lane.
pub proof fn lemma_reset_on_lane(food: FoodModel)
    ensures
        FoodModel::initial().on_lane(),
        FoodModel::initial().lane() == 0,
        food.reset().on_lane(),
        food.reset().lane() == 0,
{
}

/// A tick that draws one of the lanes leaves the item on a lane.
pub proof fn lemma_item_stays_on_lane(state: GameModel, lane: int, draw: int)
    requires
        is_lane(lane),
        state.food.on_lane(),
    ensures
        state.ticked(lane, draw).food.on_lane(),
{
    lemma_respawn_on_lane(state.food, lane, draw);
    lemma_reset_on_lane(state.food);
}

/// However many ticks have passed, the item is on a lane, if every lane
/// drawn was one of the lanes.
pub proof fn lemma_item_always_on_lane(state: GameModel, draws: Seq<(int, int)>)
    requires
        state.food.on_lane(),
        forall|i: int| 0 <= i < draws.len() ==> is_lane(#[trigger] draws[i].0),
    ensures
        state.run(draws).food.on_lane(),
    decreases draws.len(),
{
    if draws.len() > 0 {
        let earlier = draws.drop_last();
        assert forall|i: int| 0 <= i < earlier.len() implies is_lane(#[trigger] earlier[i].0) by {
            assert(earlier[i] == draws[i]);
        }
        lemma_item_always_on_lane(state, earlier);
        lemma_item_stays_on_lane(state.run(earlier), draws.last().0, draws.last().1);
    }
}

/// While a round goes on, the item never gets slower: a tick after which
/// the round is still on has added exactly one step to the speed if the
/// item appeared again in it, and has left the speed alone if not.
pub proof fn lemma_speed_step(state: GameModel, lane: int, draw: int)
    requires
        state.ticked(lane, draw).input.start,
    ensures
        state.input.start,
        state.food.eaten ==> state.ticked(lane, draw).food.speed == state.food.speed + SPEED_STEP,
        !state.food.eaten ==> state.ticked(lane, draw).food.speed == state.food.speed,
        state.ticked(lane, draw).food.speed >= state.food.speed,
{
}

/// Ticks alone never start a round: if a round is on after some ticks, it
/// was on before them.
pub proof fn lemma_ticks_never_start(state: GameModel, draws: Seq<(int, int)>)
    requires
        state.run(draws).input.start,
    ensures
        state.input.start,
    decreases draws.len(),
{
    if draws.len() > 0 {
        lemma_ticks_never_start(state, draws.drop_last());
    }
}

/// Over any number of ticks after which the round is still on, the speed
/// of the item has not dropped.
pub proof fn lemma_speed_never_drops(state: GameModel, draws: Seq<(int, int)>)
    requires
        state.run(draws).input.start,
    ensures
        state.run(draws).food.speed >= state.food.speed,
    decreases draws.len(),
{
    if draws.len() > 0 {
        let earlier = state.run(draws.drop_last());
        lemma_speed_step(earlier, draws.last().0, draws.last().1);
        lemma_speed_never_drops(state, draws.drop_last());
    }
}

/// Applying the restart rule twice gives what applying it once gives,
/// whether a round is on or not.
pub proof fn lemma_restart_idempotent(player: PlayerModel, food: FoodModel, input: KeyInput)
    ensures
        player.restarted(input).restarted(input) == player.restarted(input),
        food.restarted(input).restarted(input) == food.restarted(input),
{
}

/// The restart rule applied to a whole state twice gives what it gives
/// once, and an idle tick is the restart rule.
pub proof fn lemma_idle_tick_is_restart(state: GameModel, lane: int, draw: int)
    ensures
        state.restarted().restarted() == state.restarted(),
        !state.input.start ==> state.ticked(lane, draw) == state.restarted(),
        !state.input.start ==> state.ticked(lane, draw).ticked(lane, draw) == state.ticked(
            lane,
            draw,
        ),
{
}

/// A tick decides one thing about the item: no two of the four conditions
/// hold together, each verdict is given exactly when its condition holds,
/// nothing is decided exactly when none holds, and no verdict both scores
/// and loses.
pub proof fn lemma_one_outcome(food: FoodModel, player: PlayerModel)
    ensures
        !(food.eaten_holds(player) && food.poisoned_holds(player)),
        !(food.eaten_holds(player) && food.dodged_holds(player)),
        !(food.eaten_holds(player) && food.missed_holds(player)),
        !(food.poisoned_holds(player) && food.dodged_holds(player)),
        !(food.poisoned_holds(player) && food.missed_holds(player)),
        !(food.dodged_holds(player) && food.missed_holds(player)),
        food.outcome(player) == Outcome::Eaten <==> food.eaten_holds(player),
        food.outcome(player) == Outcome::Poisoned <==> food.poisoned_holds(player),
        food.outcome(player) == Outcome::Dodged <==> food.dodged_holds(player),
        food.outcome(player) == Outcome::Missed <==> food.missed_holds(player),
        food.outcome(player) == Outcome::Nothing <==> !food.eaten_holds(player)
            && !food.poisoned_holds(player) && !food.dodged_holds(player) && !food.missed_holds(
            player,
        ),
        !(food.outcome(player).scores() && food.outcome(player).loses()),
{
}

/// An item that touches the player is never let pass: poison on the
/// player's lane at the very edge of the screen ends the round, and food
/// there is eaten.
pub proof fn lemma_touch_comes_first(food: FoodModel, player: PlayerModel)
    requires
        food.touches(player),
    ensures
        food.poison ==> food.outcome(player) == Outcome::Poisoned,
        !food.poison ==> food.outcome(player) == Outcome::Eaten,
{
}

/// An item that is due appears as the two numbers drawn say: poison
/// exactly when the number drawn for it is 0, whatever its lane, and drawn
/// as such; at the height of its lane; a step faster; and moved once from
/// the right edge by its new speed.
pub proof fn lemma_fresh_item(food: FoodModel, player: PlayerModel, lane: int, draw: int)
    requires
        food.eaten,
    ensures
        food.stepped(player, lane, draw).poison == (draw == 0),
        food.stepped(player, lane, draw).id() == (if draw == 0 {
            ObjectType::Poison
        } else {
            ObjectType::Food
        }),
        food.stepped(player, lane, draw).pos.y == lane * TILE,
        food.stepped(player, lane, draw).speed == food.speed + SPEED_STEP,
        food.stepped(player, lane, draw).pos.x == SPAWN_X - (food.speed + SPEED_STEP),
{
}

/// An item on its way is moved by its speed and is otherwise kept: same
/// lane, same speed, poison or food as before, whatever is drawn.
pub proof fn lemma_item_in_flight(food: FoodModel, player: PlayerModel, lane: int, draw: int)
    requires
        !food.eaten,
    ensures
        food.stepped(player, lane, draw).pos.x == food.pos.x - food.speed,
        food.stepped(player, lane, draw).pos.y == food.pos.y,
        food.stepped(player, lane, draw).speed == food.speed,
        food.stepped(player, lane, draw).poison == food.poison,
        food.stepped(player, lane, draw).id() == food.id(),
{
}

/// In one tick the points stay or grow by one; they grow exactly when the
/// item is used up; and a tick that uses the item up does not end the
/// round.
pub proof fn lemma_point_with_item(
    food: FoodModel,
    input: KeyInput,
    player: PlayerModel,
    lane: int,
    draw: int,
)
    ensures
        food.stepped(player, lane, draw).eaten == food.verdict(player, lane, draw).scores(),
        food.stepped(player, lane, draw).eaten ==> food.stepped(player, lane, draw).score
            == food.score + 1,
        !food.stepped(player, lane, draw).eaten ==> food.stepped(player, lane, draw).score
            == food.score,
        food.stepped(player, lane, draw).eaten ==> input.settled(
            food.verdict(player, lane, draw),
        ) == input,
{
}

/// What a verdict does to the state, and what it leaves alone: a scoring
/// verdict uses the item up and adds one point, a losing verdict ends the
/// round, and each does nothing else.
pub proof fn lemma_outcome_effects(food: FoodModel, input: KeyInput, outcome: Outcome)
    ensures
        outcome.scores() ==> food.settled(outcome).eaten && food.settled(outcome).score
            == food.score + 1 && input.settled(outcome) == input,
        outcome.loses() ==> !input.settled(outcome).start && food.settled(outcome) == food,
        outcome == Outcome::Nothing ==> food.settled(outcome) == food && input.settled(outcome)
            == input,
        food.settled(outcome).pos == food.pos,
        food.settled(outcome).speed == food.speed,
        food.settled(outcome).poison == food.poison,
{
}

/// A round ends by a loss and by nothing else, and the tick that ends it
/// puts the player back at the origin and resets the item: position at the
/// origin, due to appear, no points, base speed.
pub proof fn lemma_round_ends_by_loss(state: GameModel, lane: int, draw: int)
    requires
        state.input.start,
    ensures
        !state.ticked(lane, draw).input.start <==> state.tick_outcome(lane, draw).loses(),
        state.tick_outcome(lane, draw).loses() ==> {
            &&& state.ticked(lane, draw).player == PlayerModel::initial()
            &&& state.ticked(lane, draw).food.pos == FoodModel::initial().pos
            &&& state.ticked(lane, draw).food.eaten
            &&& state.ticked(lane, draw).food.score == 0
            &&& state.ticked(lane, draw).food.speed == BASE_SPEED
        },
        !state.tick_outcome(lane, draw).loses() ==> state.ticked(lane, draw) == state.played(
            lane,
            draw,
        ),
{
}

/// While a round goes on, the points never drop: a tick after which the
/// round is still on has added one point if its verdict scores, and none
/// if not.
pub proof fn lemma_score_step(state: GameModel, lane: int, draw: int)
    requires
        state.ticked(lane, draw).input.start,
    ensures
        state.tick_outcome(lane, draw).scores() ==> state.ticked(lane, draw).food.score
            == state.food.score + 1,
        !state.tick_outcome(lane, draw).scores() ==> state.ticked(lane, draw).food.score
            == state.food.score,
{
}

/// Only the start key coming up starts a round, and no key event ends one.
pub proof fn lemma_only_start_key_starts(input: KeyInput, keycode: Keycode)
    ensures
        input.pressed(keycode).start == input.start,
        input.released(keycode).start == (input.start || keycode == Keycode::Space),
{
}

/// An item with headroom can take a tick with any lane and any number,
/// wherever the player is: its new values are representable.
pub proof fn lemma_item_headroom_suffices(
    food: FoodModel,
    player: PlayerModel,
    lane: int,
    draw: int,
)
    requires
        food.fits(),
        food.has_headroom(),
        food.eaten ==> is_lane(lane),
    ensures
        food.stepped(player, lane, draw).fits(),
{
}

/// A state with headroom can take a tick with any lane and any number: the
/// values that the simulation step computes are representable.
pub proof fn lemma_headroom_suffices(state: GameModel, lane: int, draw: int)
    requires
        state.fits(),
        state.has_headroom(),
        state.input.start,
        state.food.eaten ==> is_lane(lane),
    ensures
        state.played(lane, draw).fits(),
{
}

} // verus!

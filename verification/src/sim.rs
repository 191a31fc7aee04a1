//! One tick of a round, piece by piece: the player moves, the item appears
//! or scrolls and is judged, and the restart rule puts everything back once
//! the round is over.

use vstd::prelude::*;
use crate::entity::{
    Food, Player, Point2, BASE_SPEED, LANES, OFFSCREEN_X, POISON_ODDS, SPAWN_X, SPEED_STEP, TILE,
};
use crate::input::{KeyInput, DOWN, UP};
use crate::random::gen_range;
use crate::rules::{is_draw, is_lane, Outcome};

verus! {

/// Whether the player's next lane is representable, that is, whether
/// `move_player` may be called.
pub fn can_move_player(input: &KeyInput, player: &Player) -> (ok: bool)
    ensures
        ok == player@.moved(*input).fits(),
{
    if input.x != 0 || !input.start {
        true
    } else if input.y == DOWN {
        player.pos.y < i64::MAX
    } else if input.y == UP {
        player.pos.y > i64::MIN
    } else {
        true
    }
}

/// Moves the player a lane up or down if a round is on and the keyboard
/// asks for it. The new lane has to be representable.
pub fn move_player(input: &KeyInput, player: &mut Player)
    requires
        old(player)@.moved(*input).fits(),
    ensures
        final(player)@ == old(player)@.moved(*input),
{
    if input.x == 0 && input.start {
        if input.y == DOWN {
            player.pos.y = player.pos.y + 1;
        } else if input.y == UP {
            player.pos.y = player.pos.y - 1;
        }
    }
}

/// Whether the item is on the player's lane.
fn same_lane(food: &Food, player: &Player) -> (same: bool)
    ensures
        same == food@.same_lane(player@),
{
    let tile: i128 = TILE as i128;
    food.pos.y as i128 == (player.pos.y as i128) * tile
}

/// The item's part of a tick, with the lane and the number that chance
/// would supply given by the caller: the item appears again if it is due,
/// on `lane` and as poison or food according to `draw`; it moves left by
/// its speed; then it is judged against the player. A point is counted and
/// the item used up where that scores, and the round is ended where that
/// loses. The new values have to be representable.
pub fn food_spawn_with(
    input: &mut KeyInput,
    food: &mut Food,
    player: &Player,
    lane: i32,
    draw: i32,
) -> (outcome: Outcome)
    requires
        old(food).eaten ==> is_lane(lane as int),
        old(food)@.stepped(player@, lane as int, draw as int).fits(),
    ensures
        outcome == old(food)@.verdict(player@, lane as int, draw as int),
        final(food)@ == old(food)@.stepped(player@, lane as int, draw as int),
        *final(input) == old(input).settled(outcome),
{
    if food.eaten {
        food.pos.x = SPAWN_X;
        food.pos.y = (lane as i64) * TILE;
        food.eaten = false;
        food.speed = food.speed + SPEED_STEP;
        food.poison = draw == 0;
    }
    food.pos.x = food.pos.x - (food.speed as i64);

    let in_reach = OFFSCREEN_X <= food.pos.x && food.pos.x <= player.pos.x;
    let touches = same_lane(food, player) && in_reach;
    let gone = food.pos.x <= OFFSCREEN_X;
    if !food.poison && touches {
        food.eaten = true;
        food.score = food.score + 1;
        Outcome::Eaten
    } else if food.poison && touches {
        input.start = false;
        Outcome::Poisoned
    } else if food.poison && gone {
        food.eaten = true;
        food.score = food.score + 1;
        Outcome::Dodged
    } else if !food.poison && gone {
        input.start = false;
        Outcome::Missed
    } else {
        Outcome::Nothing
    }
}

/// Whether the item has headroom, that is, whether `food_spawn` may be
/// called.
pub fn can_food_spawn(food: &Food) -> (ok: bool)
    ensures
        ok == food@.has_headroom(),
{
    let fits = if food.eaten {
        food.speed <= u32::MAX - SPEED_STEP
    } else {
        food.pos.x >= i64::MIN + (food.speed as i64)
    };
    food.score < u32::MAX && fits
}

/// The item's part of a tick. Where the item is due to appear, its lane and
/// the number that decides whether it is poison are drawn from the thread's
/// random generator: the lane from `0` up to but not including `LANES`, the
/// number from `0` up to but not including `POISON_ODDS`. What happens then
/// is what `food_spawn_with` does with the two. Whatever is drawn, an item
/// that appears is on a lane, a step faster and moved once at its new
/// speed; an item on its way moves by its speed and is otherwise kept; and
/// a point is counted exactly when the item is used up, which never ends
/// the round.
pub fn food_spawn(input: &mut KeyInput, food: &mut Food, player: &Player) -> (outcome: Outcome)
    requires
        old(food)@.has_headroom(),
    ensures
        exists|lane: int, draw: int|
            {
                &&& is_lane(lane)
                &&& is_draw(draw)
                &&& outcome == #[trigger] old(food)@.verdict(player@, lane, draw)
                &&& final(food)@ == old(food)@.stepped(player@, lane, draw)
            },
        *final(input) == old(input).settled(outcome),
        old(food).eaten ==> {
            &&& final(food)@.on_lane()
            &&& final(food)@.speed == old(food)@.speed + SPEED_STEP
            &&& final(food)@.pos.x == SPAWN_X - final(food)@.speed
        },
        !old(food).eaten ==> {
            &&& final(food)@.pos.x == old(food)@.pos.x - old(food)@.speed
            &&& final(food)@.pos.y == old(food)@.pos.y
            &&& final(food)@.speed == old(food)@.speed
            &&& final(food)@.poison == old(food)@.poison
        },
        final(food)@.eaten == outcome.scores(),
        outcome.scores() ==> final(food)@.score == old(food)@.score + 1,
        !outcome.scores() ==> final(food)@.score == old(food)@.score,
        outcome.scores() ==> *final(input) == *old(input),
{
    let mut lane: i32 = 0;
    let mut draw: i32 = 0;
    if food.eaten {
        let mut rng = rand::thread_rng();
        lane = gen_range(&mut rng, 0, LANES);
        draw = gen_range(&mut rng, 0, POISON_ODDS);
    }
    food_spawn_with(input, food, player, lane, draw)
}

/// The restart rule: unless a round is on, the player goes back to the
/// origin and the item is reset: at the origin, due to appear, no points,
/// base speed.
pub fn restart(input: &KeyInput, player: &mut Player, food: &mut Food)
    ensures
        final(player)@ == old(player)@.restarted(*input),
        final(food)@ == old(food)@.restarted(*input),
{
    if !input.start {
        player.pos = Point2::new(0, 0);
        food.pos = Point2::new(0, 0);
        food.eaten = true;
        food.score = 0;
        food.speed = BASE_SPEED;
    }
}

} // verus!

//! Whole rounds, tick by tick.

use rpc_game::entity::{Food, Player, Point2};
use rpc_game::game::Mainstate;
use rpc_game::input::{KeyInput, Keycode};
use rpc_game::rules::Outcome;

/// A round that is on, with the player on `player_lane` and an item that
/// has just appeared at the right edge on `item_lane`, at speed 20.
fn round(player_lane: i64, item_lane: i64, poison: bool) -> Mainstate {
    Mainstate {
        player: Player { pos: Point2 { x: 0, y: player_lane } },
        food: Food {
            pos: Point2 { x: 800, y: item_lane * 52 },
            eaten: false,
            score: 0,
            poison,
            speed: 20,
        },
        input: KeyInput { x: 0, y: 0, start: true },
    }
}

fn assert_reset(state: &Mainstate) {
    assert!(!state.input.start);
    assert_eq!(state.player.pos, Point2 { x: 0, y: 0 });
    assert_eq!(state.food.pos, Point2 { x: 0, y: 0 });
    assert!(state.food.eaten);
    assert_eq!(state.food.score, 0);
    assert_eq!(state.food.speed, 20);
}

#[test]
fn food_on_the_players_lane_is_eaten() {
    let mut state = round(0, 0, false);
    for tick in 1..40 {
        assert_eq!(state.tick_with(0, 1), Outcome::Nothing);
        assert_eq!(state.food.pos.x, 800 - 20 * tick);
        assert!(!state.food.eaten);
        assert_eq!(state.food.score, 0);
    }
    assert_eq!(state.tick_with(0, 1), Outcome::Eaten);
    assert_eq!(state.food.pos, Point2 { x: 0, y: 0 });
    assert!(state.food.eaten);
    assert_eq!(state.food.score, 1);
    assert_eq!(state.food.speed, 20);
    assert!(state.input.start);
}

#[test]
fn poison_on_another_lane_is_dodged() {
    let mut state = round(0, 3, true);
    for tick in 1..43 {
        assert_eq!(state.tick_with(0, 1), Outcome::Nothing);
        assert_eq!(state.food.pos, Point2 { x: 800 - 20 * tick, y: 156 });
        assert_eq!(state.food.score, 0);
    }
    assert_eq!(state.food.pos.x, -40);
    assert_eq!(state.tick_with(0, 1), Outcome::Dodged);
    assert_eq!(state.food.pos.x, -60);
    assert!(state.food.eaten);
    assert_eq!(state.food.score, 1);
    assert!(state.input.start);
    assert_eq!(state.player.pos, Point2 { x: 0, y: 0 });
}

#[test]
fn poison_on_the_players_lane_ends_the_round() {
    let mut state = round(0, 0, true);
    for _ in 1..40 {
        assert_eq!(state.tick_with(0, 1), Outcome::Nothing);
        assert!(state.input.start);
    }
    assert_eq!(state.food.pos.x, 20);
    assert_eq!(state.tick_with(0, 1), Outcome::Poisoned);
    assert_reset(&state);
    assert!(state.food.poison);

    assert_eq!(state.tick_with(0, 1), Outcome::Nothing);
    assert_reset(&state);
}

#[test]
fn food_on_another_lane_is_missed() {
    let mut state = round(2, 1, false);
    for _ in 1..43 {
        assert_eq!(state.tick_with(0, 1), Outcome::Nothing);
        assert!(state.input.start);
        assert_eq!(state.player.pos, Point2 { x: 0, y: 2 });
    }
    assert_eq!(state.food.pos, Point2 { x: -40, y: 52 });
    assert_eq!(state.tick_with(0, 1), Outcome::Missed);
    assert_reset(&state);
    assert!(!state.food.poison);

    assert_eq!(state.tick_with(0, 1), Outcome::Nothing);
    assert_reset(&state);
}

#[test]
fn a_new_game_is_idle_and_ticks_change_nothing() {
    let mut state = Mainstate::new();
    assert_reset(&state);
    assert!(!state.food.poison);
    assert_eq!(state.input, KeyInput { x: 0, y: 0, start: false });
    let idle = state;
    state.key_down_event(Keycode::S);
    assert_eq!(state.tick_with(4, 0), Outcome::Nothing);
    assert_eq!(state.player, idle.player);
    assert_eq!(state.food, idle.food);
}

#[test]
fn the_first_item_of_a_round_comes_at_speed_22() {
    let mut state = Mainstate::new();
    state.key_up_event(Keycode::Space);
    assert!(state.input.start);
    assert_eq!(state.tick_with(5, 3), Outcome::Nothing);
    assert_eq!(state.food.pos, Point2 { x: 778, y: 260 });
    assert_eq!(state.food.speed, 22);
    assert!(!state.food.poison);
    assert!(!state.food.eaten);
    // 800 - 22 * 36 = 8 is short of the player, 800 - 22 * 37 = -14 is not,
    // but the player is on lane 0 and the item on lane 5.
    for _ in 2..=38 {
        assert_eq!(state.tick_with(0, 0), Outcome::Nothing);
    }
    assert_eq!(state.food.pos.x, 800 - 22 * 38);
    assert_eq!(state.tick_with(0, 0), Outcome::Missed);
    assert_reset(&state);
}

#[test]
fn a_round_of_three_items() {
    let mut state = Mainstate::new();
    state.key_up_event(Keycode::Space);

    // Food on lane 0, where the player waits: eaten at the 37th tick.
    for _ in 1..37 {
        assert_eq!(state.tick_with(0, 6), Outcome::Nothing);
    }
    assert_eq!(state.tick_with(0, 6), Outcome::Eaten);
    assert_eq!(state.food.pos.x, -14);
    assert_eq!((state.food.score, state.food.speed), (1, 22));

    // Poison on lane 0: the player steps down a lane and lets it pass.
    state.key_down_event(Keycode::S);
    assert_eq!(state.tick_with(0, 0), Outcome::Nothing);
    state.key_up_event(Keycode::S);
    assert_eq!(state.player.pos, Point2 { x: 0, y: 1 });
    assert_eq!(state.food.pos, Point2 { x: 776, y: 0 });
    assert!(state.food.poison);
    assert_eq!(state.food.speed, 24);
    // 800 - 24 * 35 = -40, 800 - 24 * 36 = -64.
    for _ in 2..36 {
        assert_eq!(state.tick_with(0, 0), Outcome::Nothing);
    }
    assert_eq!(state.tick_with(0, 0), Outcome::Dodged);
    assert_eq!((state.food.score, state.food.speed), (2, 24));

    // Poison on lane 1, where the player now stands: the round is lost
    // when it arrives. 800 - 26 * 30 = 20, 800 - 26 * 31 = -6.
    for _ in 1..31 {
        assert_eq!(state.tick_with(1, 0), Outcome::Nothing);
        assert_eq!(state.food.speed, 26);
    }
    assert_eq!(state.tick_with(1, 0), Outcome::Poisoned);
    assert_reset(&state);

    // The next round starts over at the base speed.
    state.key_up_event(Keycode::Space);
    assert_eq!(state.tick_with(2, 1), Outcome::Nothing);
    assert_eq!(state.food.speed, 22);
    assert_eq!(state.food.score, 0);
    assert_eq!(state.food.pos, Point2 { x: 778, y: 104 });
}

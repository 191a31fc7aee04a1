//! Where the machine's integers end.

use rpc_game::entity::{Food, Player, Point2};
use rpc_game::game::{Mainstate, TICKS_PER_SECOND};
use rpc_game::input::KeyInput;
use rpc_game::rules::Outcome;

fn playing(player_lane: i64, y: i32, food: Food) -> Mainstate {
    Mainstate {
        player: Player { pos: Point2 { x: 0, y: player_lane } },
        food,
        input: KeyInput { x: 0, y, start: true },
    }
}

fn on_its_way(x: i64, speed: u32) -> Food {
    Food { pos: Point2 { x, y: 0 }, eaten: false, score: 0, poison: true, speed }
}

#[test]
fn there_are_twenty_ticks_to_the_second() {
    assert_eq!(TICKS_PER_SECOND, 20);
}

#[test]
fn an_idle_game_can_always_tick() {
    let mut state = Mainstate {
        player: Player { pos: Point2 { x: i64::MIN, y: i64::MAX } },
        food: Food {
            pos: Point2 { x: i64::MIN, y: i64::MIN },
            eaten: false,
            score: u32::MAX,
            poison: true,
            speed: u32::MAX,
        },
        input: KeyInput { x: 0, y: 1, start: false },
    };
    assert!(state.can_tick());
    assert_eq!(state.tick(), Outcome::Nothing);
    assert_eq!(state.player, Player::new());
    assert_eq!(state.food, Food { poison: true, ..Food::new() });
    assert_eq!(state.input, KeyInput { x: 0, y: 1, start: false });
}

#[test]
fn a_fresh_round_can_tick() {
    assert!(Mainstate::new().can_tick());
    assert!(playing(0, 0, Food::new()).can_tick());
    assert!(playing(0, 1, Food::new()).can_tick());
    assert!(playing(0, -1, Food::new()).can_tick());
}

#[test]
fn a_full_count_of_points_stops_the_ticks() {
    assert!(playing(0, 0, Food { score: u32::MAX - 1, ..Food::new() }).can_tick());
    assert!(!playing(0, 0, Food { score: u32::MAX, ..Food::new() }).can_tick());
    assert!(!playing(0, 0, Food { score: u32::MAX, ..on_its_way(400, 20) }).can_tick());
}

#[test]
fn a_speed_that_cannot_grow_stops_the_ticks_when_the_item_is_due() {
    assert!(playing(0, 0, Food { speed: u32::MAX - 2, ..Food::new() }).can_tick());
    assert!(!playing(0, 0, Food { speed: u32::MAX - 1, ..Food::new() }).can_tick());
    assert!(!playing(0, 0, Food { speed: u32::MAX, ..Food::new() }).can_tick());
    assert!(playing(0, 0, on_its_way(400, u32::MAX)).can_tick());
}

#[test]
fn an_item_that_cannot_move_further_left_stops_the_ticks() {
    assert!(playing(0, 0, on_its_way(i64::MIN + 20, 20)).can_tick());
    assert!(!playing(0, 0, on_its_way(i64::MIN + 19, 20)).can_tick());
    assert!(playing(0, 0, on_its_way(i64::MIN, 0)).can_tick());
    assert!(!playing(0, 0, on_its_way(i64::MIN, 1)).can_tick());
    // An item that is due appears at the right edge first.
    let due = Food { pos: Point2 { x: i64::MIN, y: 0 }, ..Food::new() };
    assert!(playing(0, 0, due).can_tick());
}

#[test]
fn a_player_at_the_last_number_stops_the_ticks_only_when_moving_on() {
    let item = on_its_way(400, 20);
    assert!(!playing(i64::MAX, 1, item).can_tick());
    assert!(playing(i64::MAX, 0, item).can_tick());
    assert!(playing(i64::MAX, -1, item).can_tick());
    assert!(playing(i64::MAX - 1, 1, item).can_tick());
    assert!(!playing(i64::MIN, -1, item).can_tick());
    assert!(playing(i64::MIN, 0, item).can_tick());
    assert!(playing(i64::MIN, 1, item).can_tick());
    assert!(playing(i64::MIN + 1, -1, item).can_tick());
    assert!(playing(i64::MAX, 2, item).can_tick());
    let mut sideways = playing(i64::MAX, 1, item);
    sideways.input.x = 1;
    assert!(sideways.can_tick());
}

#[test]
fn ticks_at_the_limits_are_exact() {
    let mut state = playing(i64::MAX - 1, 1, on_its_way(i64::MIN + 20, 20));
    state.food.score = u32::MAX - 1;
    assert!(state.can_tick());
    assert_eq!(state.tick(), Outcome::Dodged);
    assert_eq!(state.player.pos, Point2 { x: 0, y: i64::MAX });
    assert_eq!(
        state.food,
        Food { pos: Point2 { x: i64::MIN, y: 0 }, eaten: true, score: u32::MAX, poison: true, speed: 20 }
    );
    assert!(!state.can_tick());
}

//! The whole state of the game and its tick.
//!
//! The game is idle until the start key comes up. While a round is on,
//! each tick moves the player and the item and judges the item; a loss
//! ends the round, and the restart rule, applied at the end of every tick,
//! then puts player and item back.

use vstd::prelude::*;
use crate::entity::{Food, FoodModel, Player, PlayerModel};
use crate::input::{KeyInput, Keycode};
use crate::rules::{is_draw, is_lane, Outcome};
use crate::sim::{
    can_food_spawn, can_move_player, food_spawn, food_spawn_with, move_player, restart,
};

verus! {

/// How many ticks make a second.
pub const TICKS_PER_SECOND: u32 = 20;

/// Everything that changes while the game runs.
#[derive(Clone, Copy, Debug, PartialEq, Eq, Structural)]
pub struct Mainstate {
    pub player: Player,
    pub food: Food,
    pub input: KeyInput,
}

/// The model of the game's state.
pub struct GameModel {
    pub player: PlayerModel,
    pub food: FoodModel,
    pub input: KeyInput,
}

impl View for Mainstate {
    type V = GameModel;

    open spec fn view(&self) -> GameModel {
        GameModel { player: self.player@, food: self.food@, input: self.input }
    }
}

impl GameModel {
    /// The idle game before the first round.
    pub open spec fn initial() -> GameModel {
        GameModel {
            player: PlayerModel::initial(),
            food: FoodModel::initial(),
            input: KeyInput::initial(),
        }
    }

    /// The model is the view of some `Mainstate`.
    pub open spec fn fits(self) -> bool {
        self.player.fits() && self.food.fits()
    }

    /// The state after `keycode` went down.
    pub open spec fn pressed(self, keycode: Keycode) -> GameModel {
        GameModel { input: self.input.pressed(keycode), ..self }
    }

    /// The state after `keycode` came up.
    pub open spec fn released(self, keycode: Keycode) -> GameModel {
        GameModel { input: self.input.released(keycode), ..self }
    }

    /// What a tick of a round decides about the item: the player moves
    /// first, and the item is judged against the player's new place.
    pub open spec fn verdict(self, lane: int, draw: int) -> Outcome {
        self.food.verdict(self.player.moved(self.input), lane, draw)
    }

    /// The state after the simulation step of a round, where `lane` and
    /// `draw` are what chance supplies if the item is due to appear.
    pub open spec fn played(self, lane: int, draw: int) -> GameModel {
        let player = self.player.moved(self.input);
        GameModel {
            player,
            food: self.food.stepped(player, lane, draw),
            input: self.input.settled(self.verdict(lane, draw)),
        }
    }

    /// The state after the restart rule.
    pub open spec fn restarted(self) -> GameModel {
        GameModel {
            player: self.player.restarted(self.input),
            food: self.food.restarted(self.input),
            input: self.input,
        }
    }

    /// What a tick decides about the item: nothing while the game is idle.
    pub open spec fn tick_outcome(self, lane: int, draw: int) -> Outcome {
        if self.input.start {
            self.verdict(lane, draw)
        } else {
            Outcome::Nothing
        }
    }

    /// The state after a tick: the simulation step if a round is on, then
    /// the restart rule in any case.
    pub open spec fn ticked(self, lane: int, draw: int) -> GameModel {
        if self.input.start {
            self.played(lane, draw).restarted()
        } else {
            self.restarted()
        }
    }

    /// Whatever chance supplies, a tick stays within the machine integers.
    pub open spec fn has_headroom(self) -> bool {
        self.input.start ==> self.player.moved(self.input).fits() && self.food.has_headroom()
    }

    /// The state after one tick for each pair of `draws`, in order. A pair
    /// holds the lane and the number that chance supplies to its tick.
    pub open spec fn run(self, draws: Seq<(int, int)>) -> GameModel
        decreases draws.len(),
    {
        if draws.len() == 0 {
            self
        } else {
            self.run(draws.drop_last()).ticked(draws.last().0, draws.last().1)
        }
    }
}

impl Mainstate {
    /// The idle game before the first round.
    pub fn new() -> (state: Mainstate)
        ensures
            state@ == GameModel::initial(),
    {
        Mainstate { player: Player::new(), food: Food::new(), input: KeyInput::new() }
    }

    /// Records that `keycode` went down.
    pub fn key_down_event(&mut self, keycode: Keycode)
        ensures
            final(self)@ == old(self)@.pressed(keycode),
    {
        self.input.key_down_event(keycode);
    }

    /// Records that `keycode` came up.
    pub fn key_up_event(&mut self, keycode: Keycode)
        ensures
            final(self)@ == old(self)@.released(keycode),
    {
        self.input.key_up_event(keycode);
    }

    /// Whether `tick` may be called: whether, whatever chance supplies, the
    /// next tick stays within the machine integers.
    pub fn can_tick(&self) -> (ok: bool)
        ensures
            ok == self@.has_headroom(),
    {
        if self.input.start {
            can_move_player(&self.input, &self.player) && can_food_spawn(&self.food)
        } else {
            true
        }
    }

    /// One tick, with the lane and the number that chance would supply
    /// given by the caller. The values that the simulation step computes
    /// have to be representable.
    pub fn tick_with(&mut self, lane: i32, draw: i32) -> (outcome: Outcome)
        requires
            old(self).input.start && old(self).food.eaten ==> is_lane(lane as int),
            old(self).input.start ==> old(self)@.played(lane as int, draw as int).fits(),
        ensures
            outcome == old(self)@.tick_outcome(lane as int, draw as int),
            final(self)@ == old(self)@.ticked(lane as int, draw as int),
    {
        let mut outcome = Outcome::Nothing;
        if self.input.start {
            move_player(&self.input, &mut self.player);
            outcome = food_spawn_with(&mut self.input, &mut self.food, &self.player, lane, draw);
        }
        restart(&self.input, &mut self.player, &mut self.food);
        outcome
    }

    /// One tick. What chance supplies is drawn from the thread's random
    /// generator: what happens is what `tick_with` does for one of the
    /// lanes and one of the numbers that decide between food and poison.
    pub fn tick(&mut self) -> (outcome: Outcome)
        requires
            old(self)@.has_headroom(),
        ensures
            exists|lane: int, draw: int|
                {
                    &&& is_lane(lane)
                    &&& is_draw(draw)
                    &&& outcome == old(self)@.tick_outcome(lane, draw)
                    &&& final(self)@ == #[trigger] old(self)@.ticked(lane, draw)
                },
    {
        let ghost before = self@;
        let ghost mut lane: int = 0;
        let ghost mut draw: int = 0;
        let mut outcome = Outcome::Nothing;
        if self.input.start {
            move_player(&self.input, &mut self.player);
            let ghost item = self.food@;
            outcome = food_spawn(&mut self.input, &mut self.food, &self.player);
            proof {
                let (l, d): (int, int) = choose|l: int, d: int|
                    {
                        &&& is_lane(l)
                        &&& is_draw(d)
                        &&& outcome == #[trigger] item.verdict(self.player@, l, d)
                        &&& self.food@ == item.stepped(self.player@, l, d)
                    };
                lane = l;
                draw = d;
            }
        }
        restart(&self.input, &mut self.player, &mut self.food);
        assert(self@ == before.ticked(lane, draw));
        outcome
    }
}

} // verus!

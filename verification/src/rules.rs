//! The rules of a round, stated over the models of the entities.

use vstd::prelude::*;
use crate::entity::{
    FoodModel, PlayerModel, Spot, LANES, OFFSCREEN_X, POISON_ODDS, SPAWN_X, SPEED_STEP, TILE,
};
use crate::input::KeyInput;

verus! {

/// What a tick decided about the item.
#[derive(Clone, Copy, Debug, PartialEq, Eq, Structural)]
pub enum Outcome {
    /// The item is still on its way.
    Nothing,
    /// Food was caught by the player: a point.
    Eaten,
    /// Poison reached the edge of the screen without touching the player:
    /// a point.
    Dodged,
    /// Poison touched the player: the round is lost.
    Poisoned,
    /// Food reached the edge of the screen uncaught: the round is lost.
    Missed,
}

impl Outcome {
    /// The outcome earns a point and uses the item up.
    pub open spec fn scores(self) -> bool {
        self == Outcome::Eaten || self == Outcome::Dodged
    }

    /// The outcome ends the round.
    pub open spec fn loses(self) -> bool {
        self == Outcome::Poisoned || self == Outcome::Missed
    }

    /// Whether the outcome earns a point. The points are worth showing to
    /// the player exactly then.
    pub fn is_score(&self) -> (yes: bool)
        ensures
            yes == self.scores(),
    {
        match self {
            Outcome::Eaten | Outcome::Dodged => true,
            _ => false,
        }
    }

    /// Whether the outcome ends the round.
    pub fn is_loss(&self) -> (yes: bool)
        ensures
            yes == self.loses(),
    {
        match self {
            Outcome::Poisoned | Outcome::Missed => true,
            _ => false,
        }
    }
}

/// `lane` is one of the lanes on which items appear.
pub open spec fn is_lane(lane: int) -> bool {
    0 <= lane < LANES
}

/// `draw` is one of the numbers that decide between food and poison.
pub open spec fn is_draw(draw: int) -> bool {
    0 <= draw < POISON_ODDS
}

/// Whether an item that appears with the number `draw` is poison.
pub open spec fn is_poison_draw(draw: int) -> bool {
    draw == 0
}

impl PlayerModel {
    /// The player one tick later: a lane up or down if a round is on and
    /// the keyboard asks for it, else unmoved. Nothing stops the player at
    /// the first or the last lane.
    pub open spec fn moved(self, input: KeyInput) -> PlayerModel {
        if input.moves_down() {
            PlayerModel { pos: Spot { x: self.pos.x, y: self.pos.y + 1 } }
        } else if input.moves_up() {
            PlayerModel { pos: Spot { x: self.pos.x, y: self.pos.y - 1 } }
        } else {
            self
        }
    }

    /// The player after the restart rule: back at the origin unless a round
    /// is on.
    pub open spec fn restarted(self, input: KeyInput) -> PlayerModel {
        if input.start {
            self
        } else {
            PlayerModel::initial()
        }
    }
}

impl FoodModel {
    /// The item as it appears again: at the right edge on `lane`, faster by
    /// one step, poison or not according to `draw`.
    pub open spec fn respawned(self, lane: int, draw: int) -> FoodModel {
        FoodModel {
            pos: Spot { x: SPAWN_X as int, y: lane * TILE },
            eaten: false,
            poison: is_poison_draw(draw),
            speed: self.speed + SPEED_STEP as nat,
            ..self
        }
    }

    /// The item as a tick finds it: as it appears again if it was used up,
    /// else unchanged.
    pub open spec fn arrived(self, lane: int, draw: int) -> FoodModel {
        if self.eaten {
            self.respawned(lane, draw)
        } else {
            self
        }
    }

    /// The item moved to the left by its speed.
    pub open spec fn advanced(self) -> FoodModel {
        FoodModel { pos: Spot { x: self.pos.x - self.speed, y: self.pos.y }, ..self }
    }

    /// The item is on the player's lane.
    pub open spec fn same_lane(self, player: PlayerModel) -> bool {
        self.pos.y == player.pos.y * TILE
    }

    /// The item has reached the player's column and is not past the left edge
    /// of the screen.
    pub open spec fn in_reach(self, player: PlayerModel) -> bool {
        OFFSCREEN_X <= self.pos.x <= player.pos.x
    }

    /// The item touches the player.
    pub open spec fn touches(self, player: PlayerModel) -> bool {
        self.same_lane(player) && self.in_reach(player)
    }

    /// The item has come to the left edge of the screen or gone past it.
    pub open spec fn gone(self) -> bool {
        self.pos.x <= OFFSCREEN_X
    }

    /// Food that touches the player.
    pub open spec fn eaten_holds(self, player: PlayerModel) -> bool {
        !self.poison && self.touches(player)
    }

    /// Poison that touches the player.
    pub open spec fn poisoned_holds(self, player: PlayerModel) -> bool {
        self.poison && self.touches(player)
    }

    /// Poison that is gone without touching the player.
    pub open spec fn dodged_holds(self, player: PlayerModel) -> bool {
        self.poison && self.gone() && !self.touches(player)
    }

    /// Food that is gone without touching the player.
    pub open spec fn missed_holds(self, player: PlayerModel) -> bool {
        !self.poison && self.gone() && !self.touches(player)
    }

    /// What a tick decides for the item at its new position. An item that
    /// touches the player is eaten or poisons, also at the very edge of the
    /// screen; one that is gone without touching is dodged or missed; any
    /// other is left alone.
    pub open spec fn outcome(self, player: PlayerModel) -> Outcome {
        if self.eaten_holds(player) {
            Outcome::Eaten
        } else if self.poisoned_holds(player) {
            Outcome::Poisoned
        } else if self.dodged_holds(player) {
            Outcome::Dodged
        } else if self.missed_holds(player) {
            Outcome::Missed
        } else {
            Outcome::Nothing
        }
    }

    /// The item after `outcome`: used up and a point more where it scores,
    /// else unchanged.
    pub open spec fn settled(self, outcome: Outcome) -> FoodModel {
        if outcome.scores() {
            FoodModel { eaten: true, score: self.score + 1, ..self }
        } else {
            self
        }
    }

    /// The item where a tick puts it before judging: appeared again if due,
    /// then moved.
    pub open spec fn scrolled(self, lane: int, draw: int) -> FoodModel {
        self.arrived(lane, draw).advanced()
    }

    /// What a tick decides about the item.
    pub open spec fn verdict(self, player: PlayerModel, lane: int, draw: int) -> Outcome {
        self.scrolled(lane, draw).outcome(player)
    }

    /// The item after a tick of a round.
    pub open spec fn stepped(self, player: PlayerModel, lane: int, draw: int) -> FoodModel {
        self.scrolled(lane, draw).settled(self.verdict(player, lane, draw))
    }

    /// The item with position, points and speed as before a round. Whether
    /// it is poison is left as it was.
    pub open spec fn reset(self) -> FoodModel {
        FoodModel { poison: self.poison, ..FoodModel::initial() }
    }

    /// The item after the restart rule: reset unless a round is on.
    pub open spec fn restarted(self, input: KeyInput) -> FoodModel {
        if input.start {
            self
        } else {
            self.reset()
        }
    }

    /// Whatever lane and number are drawn, a tick keeps points, speed and
    /// position within the machine integers.
    pub open spec fn has_headroom(self) -> bool {
        &&& self.score < u32::MAX
        &&& self.eaten ==> self.speed + SPEED_STEP <= u32::MAX
        &&& !self.eaten ==> self.pos.x - self.speed >= i64::MIN
    }
}

impl KeyInput {
    /// The keyboard state after `outcome`: the round is over where it
    /// loses, else unchanged.
    pub open spec fn settled(self, outcome: Outcome) -> KeyInput {
        if outcome.loses() {
            KeyInput { start: false, ..self }
        } else {
            self
        }
    }
}

} // verus!

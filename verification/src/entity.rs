//! The entities of the game and their mathematical models.
//!
//! Executable values hold machine integers. Each has a view with unbounded
//! integers, over which the rules of the game are stated.

use vstd::prelude::*;

verus! {

/// Distance in pixels between two neighbouring lanes.
pub const TILE: i64 = 52;

/// Number of lanes an item can appear on.
pub const LANES: i32 = 7;

/// How many numbers the draw that decides between food and poison can be.
pub const POISON_ODDS: i32 = 7;

/// Horizontal pixel position at which an item appears.
pub const SPAWN_X: i64 = 800;

/// Horizontal pixel position of the left edge of the screen: the last at
/// which an item can still touch the player, and the first at which an
/// item that touches nobody is gone.
pub const OFFSCREEN_X: i64 = -50;

/// Speed of the item at the start of a round, in pixels per tick.
pub const BASE_SPEED: u32 = 20;

/// Amount by which the item gets faster every time it appears.
pub const SPEED_STEP: u32 = 2;

/// The kinds of things that are drawn.
#[derive(Clone, Copy, Debug, PartialEq, Eq, Structural)]
pub enum ObjectType {
    Player,
    Food,
    Poison,
}

/// A pair of integer coordinates.
#[derive(Clone, Copy, Debug, PartialEq, Eq, Structural)]
pub struct Point2 {
    pub x: i64,
    pub y: i64,
}

/// A point of the unbounded integer plane.
pub struct Spot {
    pub x: int,
    pub y: int,
}

impl Spot {
    /// Both coordinates are representable in a `Point2`.
    pub open spec fn fits(self) -> bool {
        i64::MIN <= self.x <= i64::MAX && i64::MIN <= self.y <= i64::MAX
    }

    /// The point with both coordinates multiplied by `factor`.
    pub open spec fn scaled(self, factor: int) -> Spot {
        Spot { x: self.x * factor, y: self.y * factor }
    }
}

impl View for Point2 {
    type V = Spot;

    open spec fn view(&self) -> Spot {
        Spot { x: self.x as int, y: self.y as int }
    }
}

impl Point2 {
    /// The point with the coordinates `x` and `y`.
    pub fn new(x: i64, y: i64) -> (p: Point2)
        ensures
            p.x == x,
            p.y == y,
    {
        Point2 { x, y }
    }
}

/// The player. `pos.y` counts lanes, not pixels. `pos.x` is the column at
/// which items are caught: it is compared with an item's pixel position as
/// it is, and scaled like `pos.y` for drawing.
#[derive(Clone, Copy, Debug, PartialEq, Eq, Structural)]
pub struct Player {
    pub pos: Point2,
}

/// The model of a player.
pub struct PlayerModel {
    pub pos: Spot,
}

impl View for Player {
    type V = PlayerModel;

    open spec fn view(&self) -> PlayerModel {
        PlayerModel { pos: self.pos@ }
    }
}

impl PlayerModel {
    /// The player at the origin.
    pub open spec fn initial() -> PlayerModel {
        PlayerModel { pos: Spot { x: 0, y: 0 } }
    }

    /// The model is the view of some `Player`.
    pub open spec fn fits(self) -> bool {
        self.pos.fits()
    }
}

impl Player {
    /// A player at the origin.
    pub fn new() -> (player: Player)
        ensures
            player@ == PlayerModel::initial(),
    {
        Player { pos: Point2::new(0, 0) }
    }

    /// What a player is drawn as.
    pub fn id(&self) -> (id: ObjectType)
        ensures
            id == ObjectType::Player,
    {
        ObjectType::Player
    }
}

/// The one scrolling item. `pos` is in pixels. The slot is reused: when
/// `eaten` is set, the item is due to appear again at the right edge.
#[derive(Clone, Copy, Debug, PartialEq, Eq, Structural)]
pub struct Food {
    pub pos: Point2,
    pub eaten: bool,
    pub score: u32,
    pub poison: bool,
    pub speed: u32,
}

/// The model of the item.
pub struct FoodModel {
    pub pos: Spot,
    pub eaten: bool,
    pub score: nat,
    pub poison: bool,
    pub speed: nat,
}

impl View for Food {
    type V = FoodModel;

    open spec fn view(&self) -> FoodModel {
        FoodModel {
            pos: self.pos@,
            eaten: self.eaten,
            score: self.score as nat,
            poison: self.poison,
            speed: self.speed as nat,
        }
    }
}

impl FoodModel {
    /// The item before a round: at the origin, due to appear, no points,
    /// base speed, harmless.
    pub open spec fn initial() -> FoodModel {
        FoodModel {
            pos: Spot { x: 0, y: 0 },
            eaten: true,
            score: 0,
            poison: false,
            speed: BASE_SPEED as nat,
        }
    }

    /// The model is the view of some `Food`.
    pub open spec fn fits(self) -> bool {
        &&& self.pos.fits()
        &&& self.score <= u32::MAX
        &&& self.speed <= u32::MAX
    }

    /// What the item is drawn as.
    pub open spec fn id(self) -> ObjectType {
        if self.poison {
            ObjectType::Poison
        } else {
            ObjectType::Food
        }
    }

    /// The number of the lane at whose height, or below which, the item is.
    pub open spec fn lane(self) -> int {
        self.pos.y / (TILE as int)
    }

    /// The item sits exactly on one of the lanes on which items appear.
    pub open spec fn on_lane(self) -> bool {
        0 <= self.lane() < LANES && self.pos.y == self.lane() * TILE
    }
}

impl Food {
    /// The item as it is before a round.
    pub fn new() -> (food: Food)
        ensures
            food@ == FoodModel::initial(),
    {
        Food { pos: Point2::new(0, 0), eaten: true, score: 0, poison: false, speed: BASE_SPEED }
    }

    /// What the item is drawn as.
    pub fn id(&self) -> (id: ObjectType)
        ensures
            id == self@.id(),
    {
        if self.poison {
            ObjectType::Poison
        } else {
            ObjectType::Food
        }
    }
}

} // verus!

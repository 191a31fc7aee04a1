//! What is drawn and where. Drawing itself is left to the caller: this
//! module picks the picture for each entity and its place on the canvas.

use vstd::prelude::*;
use crate::entity::{Food, ObjectType, Player, Point2, TILE};

verus! {

/// Width of the canvas in pixels.
pub const CANVAS_WIDTH: u32 = 800;

/// Height of the canvas in pixels.
pub const CANVAS_HEIGHT: u32 = 396;

/// One picture on the canvas: what it shows and where its corner goes.
#[derive(Clone, Copy, Debug, PartialEq, Eq, Structural)]
pub struct Sprite {
    pub id: ObjectType,
    pub dest: Point2,
}

/// One picture per kind of object. `I` is whatever the drawing backend
/// uses as a handle to a loaded picture.
pub struct Assets<I> {
    pub player_image: I,
    pub food_image: I,
    pub poison_image: I,
}

impl<I> Assets<I> {
    /// The picture that `id` is drawn with.
    pub open spec fn image_of(self, id: ObjectType) -> I {
        match id {
            ObjectType::Player => self.player_image,
            ObjectType::Food => self.food_image,
            ObjectType::Poison => self.poison_image,
        }
    }

    /// The set with the picture of `id` replaced by `image`.
    pub open spec fn with_image(self, id: ObjectType, image: I) -> Assets<I> {
        match id {
            ObjectType::Player => Assets { player_image: image, ..self },
            ObjectType::Food => Assets { food_image: image, ..self },
            ObjectType::Poison => Assets { poison_image: image, ..self },
        }
    }

    /// Lends out the picture that `id` is drawn with. The other pictures
    /// stay as they are.
    pub fn image_bind(&mut self, id: &ObjectType) -> (image: &mut I)
        ensures
            *image == old(self).image_of(*id),
            *final(self) == old(self).with_image(*id, *final(image)),
    {
        match id {
            ObjectType::Player => &mut self.player_image,
            ObjectType::Food => &mut self.food_image,
            ObjectType::Poison => &mut self.poison_image,
        }
    }
}

/// Whether the player's place on the canvas is representable, that is,
/// whether `render_player` may be called.
pub fn can_render_player(player: &Player) -> (ok: bool)
    ensures
        ok == player@.pos.scaled(TILE as int).fits(),
{
    let bound: i64 = i64::MAX / TILE;
    -bound <= player.pos.x && player.pos.x <= bound && -bound <= player.pos.y && player.pos.y
        <= bound
}

/// The player's picture. The player's position counts tiles, so it is
/// scaled by the tile size to get pixels.
pub fn render_player(player: &Player) -> (sprite: Sprite)
    requires
        player@.pos.scaled(TILE as int).fits(),
    ensures
        sprite.id == ObjectType::Player,
        sprite.dest@ == player@.pos.scaled(TILE as int),
{
    Sprite { id: player.id(), dest: Point2::new(player.pos.x * TILE, player.pos.y * TILE) }
}

/// The item's picture. The item's position is in pixels already.
pub fn render_food(food: &Food) -> (sprite: Sprite)
    ensures
        sprite.id == food@.id(),
        sprite.dest == food.pos,
{
    Sprite { id: food.id(), dest: food.pos }
}

} // verus!

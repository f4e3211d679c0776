//! Classification of collision participants by their layer memberships.

use vstd::prelude::*;

use crate::types::CollisionLayers;
use crate::types::Layer;

verus! {

/// A participant counts as the player when it is in the player layer and not
/// in the enemies layer.
pub open spec fn player_only(layers: CollisionLayers) -> bool {
    layers.player && !layers.enemies
}

/// A participant counts as an enemy when it is in the enemies layer and not
/// in the player layer.
pub open spec fn enemy_only(layers: CollisionLayers) -> bool {
    layers.enemies && !layers.player
}

pub fn is_player(layers: CollisionLayers) -> (r: bool)
    ensures
        r == player_only(layers),
{
    layers.contains_group(Layer::Player) && !layers.contains_group(Layer::Enemies)
}

pub fn is_enemy(layers: CollisionLayers) -> (r: bool)
    ensures
        r == enemy_only(layers),
{
    !layers.contains_group(Layer::Player) && layers.contains_group(Layer::Enemies)
}

} // verus!

use vstd::prelude::*;
use crate::area::{is_bullet_of, player_animation, DetectedArea};
use crate::player::{after_release, Player};

verus! {

/// The marker placed where the player clicked; the player's bullet stops
/// and explodes when it reaches it.
pub struct BulletStopper {}

impl BulletStopper {
    /// An area entered the stopper. The result says whether it is the
    /// player's bullet, which then explodes here; enemy bullets and other
    /// areas pass through.
    pub fn on_bullet_stopper_area_entered(area: &DetectedArea) -> (reached: bool)
        ensures
            reached == is_bullet_of(*area, "player"@),
    {
        area.is_bullet_of(player_animation())
    }

    /// Once the player's bullet has stopped, the cannon may fire again,
    /// unless the game ended while the bullet was in flight.
    pub fn release_cannon(player: &mut Player)
        ensures
            *final(player) == after_release(*old(player)),
            final(player).can_shoot == !old(player).game_over,
            final(player).game_over == old(player).game_over,
            final(player).health == old(player).health,
            final(player).score == old(player).score,
    {
        player.can_shoot = !player.game_over;
    }
}

} // verus!

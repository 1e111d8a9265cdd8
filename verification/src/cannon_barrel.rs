use vstd::prelude::*;
use crate::player::{after_shot, fires, Player};

verus! {

/// The player's cannon, which follows the mouse and fires on a click.
pub struct CannonBarrel {}

impl CannonBarrel {
    /// Whether a click fires the cannon: only while the player may shoot.
    pub fn input(player: &Player, click_pressed: bool) -> (fire: bool)
        ensures
            fire == fires(*player, click_pressed),
            fire == (click_pressed && player.can_shoot),
    {
        click_pressed && player.can_shoot
    }

    /// The cannon fired: no further shot until the bullet has stopped.
    pub fn shoot_at_mouse(player: &mut Player)
        ensures
            *final(player) == after_shot(*old(player)),
            !final(player).can_shoot,
            final(player).game_over == old(player).game_over,
            final(player).health == old(player).health,
            final(player).score == old(player).score,
    {
        player.can_shoot = false;
    }
}

} // verus!

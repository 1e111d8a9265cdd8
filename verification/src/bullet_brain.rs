use vstd::prelude::*;
use vstd::string::StringExecFns;
use crate::area::player_animation;

verus! {

/// The speed of the player's bullets at the start of a round.
pub const DEFAULT_PLAYER_BULLET_SPEED: i32 = 300;

/// The speed of the enemy's bullets at the start of a round.
pub const DEFAULT_ENEMY_BULLET_SPEED: i32 = 250;

/// The settings by which new bullets are launched.
#[derive(Clone, Copy, Debug, PartialEq, Eq, Structural)]
pub struct BulletBrain {
    /// Speed of the bullets the player fires.
    pub player_bullet_speed: i32,
    /// Speed of the bullets the enemy fires.
    pub enemy_bullet_speed: i32,
}

/// The speed of a new bullet with the animation `animation`.
pub open spec fn speed_for(brain: BulletBrain, animation: Seq<char>) -> i32 {
    if animation == "player"@ {
        brain.player_bullet_speed
    } else {
        brain.enemy_bullet_speed
    }
}

impl BulletBrain {
    /// The settings a round starts with.
    pub fn new() -> (brain: BulletBrain)
        ensures
            brain == (BulletBrain {
                player_bullet_speed: DEFAULT_PLAYER_BULLET_SPEED,
                enemy_bullet_speed: DEFAULT_ENEMY_BULLET_SPEED,
            }),
    {
        BulletBrain {
            player_bullet_speed: DEFAULT_PLAYER_BULLET_SPEED,
            enemy_bullet_speed: DEFAULT_ENEMY_BULLET_SPEED,
        }
    }

    /// The speed a bullet launched with the animation `animation_name` gets:
    /// the player's speed for a player bullet, the enemy's for any other.
    pub fn bullet_speed(&self, animation_name: &str) -> (speed: i32)
        ensures
            speed == speed_for(*self, animation_name@),
            animation_name@ == "player"@ ==> speed == self.player_bullet_speed,
            animation_name@ != "player"@ ==> speed == self.enemy_bullet_speed,
    {
        let name = String::from_str(animation_name);
        let player = String::from_str(player_animation());
        if name == player {
            self.player_bullet_speed
        } else {
            self.enemy_bullet_speed
        }
    }
}

} // verus!

use vstd::prelude::*;
use vstd::string::StringExecFns;

verus! {

/// The animation that marks a bullet fired by the player.
pub fn player_animation() -> (name: &'static str)
    ensures
        name@ == "player"@,
{
    "player"
}

/// The animation that marks a bullet fired by the enemy.
pub fn enemy_animation() -> (name: &'static str)
    ensures
        name@ == "enemy"@,
{
    "enemy"
}

/// What the engine observed about an area that entered a detection zone.
pub struct DetectedArea {
    /// The animation of its `AnimatedSprite2D` child, or `None` when it has
    /// no such child.
    pub animation: Option<String>,
    /// Whether the area is one of the game's bullets.
    pub is_bullet: bool,
}

/// Whether `area` is a bullet whose sprite plays the animation `name`.
pub open spec fn is_bullet_of(area: DetectedArea, name: Seq<char>) -> bool {
    &&& area.animation matches Some(a) && a@ == name
    &&& area.is_bullet
}

impl DetectedArea {
    /// Whether this area is a bullet whose sprite plays the animation `name`:
    /// an area without a sprite, with another animation, or that is no
    /// bullet does not count.
    pub fn is_bullet_of(&self, name: &str) -> (b: bool)
        ensures
            b == is_bullet_of(*self, name@),
    {
        match &self.animation {
            None => false,
            Some(animation) => {
                let wanted = String::from_str(name);
                if *animation != wanted {
                    false
                } else {
                    self.is_bullet
                }
            },
        }
    }
}

} // verus!

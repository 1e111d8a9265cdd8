use vstd::prelude::*;
use crate::area::{enemy_animation, is_bullet_of, DetectedArea};

verus! {

/// The points the player earns for each enemy bullet an explosion destroys.
pub const INTERCEPTION_POINTS: i32 = 1;

/// An explosion caused by the player's bullet; it destroys the enemy
/// bullets that fly into it.
pub struct Explosion {}

impl Explosion {
    /// An area entered the explosion. An enemy bullet is intercepted: the
    /// result is the points to add to the player's score. Anything else is
    /// left alone and the result is `None`.
    pub fn on_explosion_area_entered(area: &DetectedArea) -> (points: Option<i32>)
        ensures
            points == (if is_bullet_of(*area, "enemy"@) {
                Some(INTERCEPTION_POINTS)
            } else {
                None::<i32>
            }),
            is_bullet_of(*area, "enemy"@) ==> points == Some(1i32),
            !is_bullet_of(*area, "enemy"@) ==> points is None,
    {
        if area.is_bullet_of(enemy_animation()) {
            Some(INTERCEPTION_POINTS)
        } else {
            None
        }
    }
}

} // verus!

use vstd::prelude::*;
use crate::area::{enemy_animation, is_bullet_of, DetectedArea};

verus! {

/// The health a player starts a round with.
pub const START_HEALTH: i32 = 3;

/// The damage an enemy bullet does when it reaches the player.
pub const ENEMY_BULLET_DAMAGE: i32 = 1;

/// What an area entering the player's hit zone did.
#[derive(Clone, Copy, Debug, PartialEq, Eq, Structural)]
pub enum HitOutcome {
    /// It was no enemy bullet; nothing changed.
    Ignored,
    /// An enemy bullet hit the player; the game goes on.
    Damaged,
    /// An enemy bullet hit the player and this hit ended the game.
    GameOver,
}

/// The state of the player between two engine events.
#[derive(Clone, Copy, Debug, PartialEq, Eq, Structural)]
pub struct Player {
    /// Whether the cannon may fire; false while a player bullet is in flight
    /// and after the game is over.
    pub can_shoot: bool,
    /// Becomes true when the health reaches zero, and stays true.
    pub game_over: bool,
    /// Remaining health.
    pub health: i32,
    /// Enemy bullets intercepted so far.
    pub score: i32,
}

/// The health that remains after taking `damage`: never below zero.
pub open spec fn health_after(health: int, damage: int) -> int {
    if health - damage > 0 { health - damage } else { 0 }
}

/// Whether taking `damage` starts the game over: the health reaches zero and
/// the game was not already over.
pub open spec fn hit_ends_game(p: Player, damage: int) -> bool {
    health_after(p.health as int, damage) <= 0 && !p.game_over
}

/// The player after taking `damage`.
pub open spec fn after_hit(p: Player, damage: int) -> Player {
    let health = health_after(p.health as int, damage) as i32;
    if hit_ends_game(p, damage) {
        Player { health, game_over: true, can_shoot: false, ..p }
    } else {
        Player { health, ..p }
    }
}

/// The player after `amount` points were added to the score.
pub open spec fn after_score(p: Player, amount: int) -> Player {
    Player { score: (p.score + amount) as i32, ..p }
}

/// Whether a click fires the cannon of player `p`.
pub open spec fn fires(p: Player, click_pressed: bool) -> bool {
    click_pressed && p.can_shoot
}

/// The player once its cannon has fired.
pub open spec fn after_shot(p: Player) -> Player {
    Player { can_shoot: false, ..p }
}

/// The player once its bullet has stopped: the cannon may fire again,
/// unless the game is over.
pub open spec fn after_release(p: Player) -> Player {
    Player { can_shoot: !p.game_over, ..p }
}

/// A player whose game is over cannot shoot.
pub open spec fn disarmed_when_over(p: Player) -> bool {
    p.game_over ==> !p.can_shoot
}

/// The outcome of `area` entering the hit zone of player `p`.
pub open spec fn hit_zone_outcome(p: Player, area: DetectedArea) -> HitOutcome {
    if !is_bullet_of(area, "enemy"@) {
        HitOutcome::Ignored
    } else if hit_ends_game(p, ENEMY_BULLET_DAMAGE as int) {
        HitOutcome::GameOver
    } else {
        HitOutcome::Damaged
    }
}

/// The player after `area` entered its hit zone.
pub open spec fn after_hit_zone(p: Player, area: DetectedArea) -> Player {
    if is_bullet_of(area, "enemy"@) {
        after_hit(p, ENEMY_BULLET_DAMAGE as int)
    } else {
        p
    }
}

impl Player {
    /// A player at the start of a round: full health, no points, ready to fire.
    pub fn new() -> (p: Player)
        ensures
            p == (Player { can_shoot: true, game_over: false, health: START_HEALTH, score: 0 }),
    {
        Player { can_shoot: true, game_over: false, health: START_HEALTH, score: 0 }
    }

    /// Takes `damage_amount` off the health, never going below zero. When the
    /// health reaches zero for the first time the game is over and the cannon
    /// can no longer fire; the result says whether this call ended the game.
    pub fn hit_player(&mut self, damage_amount: i32) -> (ended: bool)
        requires
            i32::MIN <= old(self).health - damage_amount <= i32::MAX,
        ensures
            *final(self) == after_hit(*old(self), damage_amount as int),
            ended == hit_ends_game(*old(self), damage_amount as int),
            final(self).health == (if old(self).health - damage_amount > 0 {
                old(self).health - damage_amount
            } else {
                0
            }),
            final(self).score == old(self).score,
            ended == (!old(self).game_over && old(self).health - damage_amount <= 0),
            final(self).game_over == (old(self).game_over || ended),
            final(self).can_shoot == (old(self).can_shoot && !ended),
    {
        let lowered = self.health - damage_amount;
        self.health = if lowered > 0 { lowered } else { 0 };
        if self.health <= 0 && !self.game_over {
            self.game_over = true;
            self.can_shoot = false;
            true
        } else {
            false
        }
    }

    /// An area entered the player's hit zone. Only an enemy bullet counts:
    /// it does one point of damage. The outcome tells the caller whether to
    /// blow the bullet up and whether this hit ended the game.
    pub fn on_player_hit_zone_area_entered(&mut self, area: &DetectedArea) -> (outcome: HitOutcome)
        requires
            is_bullet_of(*area, "enemy"@) ==> old(self).health - ENEMY_BULLET_DAMAGE >= i32::MIN,
        ensures
            *final(self) == after_hit_zone(*old(self), *area),
            outcome == hit_zone_outcome(*old(self), *area),
            is_bullet_of(*area, "enemy"@) ==> {
                &&& final(self).health == (if old(self).health - 1 > 0 {
                    old(self).health - 1
                } else {
                    0
                })
                &&& final(self).score == old(self).score
                &&& final(self).game_over == (old(self).game_over || old(self).health - 1 <= 0)
                &&& final(self).can_shoot == (old(self).can_shoot && !(!old(self).game_over
                    && old(self).health - 1 <= 0))
                &&& (outcome == HitOutcome::GameOver) == (!old(self).game_over && old(self).health
                    - 1 <= 0)
                &&& (outcome == HitOutcome::Damaged) == !(!old(self).game_over && old(self).health
                    - 1 <= 0)
            },
            !is_bullet_of(*area, "enemy"@) ==> *final(self) == *old(self) && outcome
                == HitOutcome::Ignored,
    {
        if !area.is_bullet_of(enemy_animation()) {
            return HitOutcome::Ignored;
        }
        if self.hit_player(ENEMY_BULLET_DAMAGE) {
            HitOutcome::GameOver
        } else {
            HitOutcome::Damaged
        }
    }

    /// Whether a click restarts the round: only once the game is over.
    pub fn should_restart(&self, click_pressed: bool) -> (restart: bool)
        ensures
            restart == (click_pressed && self.game_over),
    {
        click_pressed && self.game_over
    }

    /// Adds `score_amount` points.
    pub fn add_score(&mut self, score_amount: i32)
        requires
            i32::MIN <= old(self).score + score_amount <= i32::MAX,
        ensures
            *final(self) == after_score(*old(self), score_amount as int),
            final(self).score == old(self).score + score_amount,
            final(self).health == old(self).health,
            final(self).game_over == old(self).game_over,
            final(self).can_shoot == old(self).can_shoot,
    {
        self.score = self.score + score_amount;
    }
}

} // verus!

use vstd::prelude::*;
use crate::area::{is_bullet_of, DetectedArea};
use crate::bullet_brain::{speed_for, BulletBrain};
use crate::player::{
    after_hit, after_hit_zone, after_release, after_score, after_shot, fires, hit_ends_game,
    disarmed_when_over, hit_zone_outcome, HitOutcome, Player, ENEMY_BULLET_DAMAGE, START_HEALTH,
};

verus! {

/// Taking damage never leaves the health below zero, and leaves exactly
/// what remains of it when the damage does not use it all up.
pub proof fn law_health_never_negative(p: Player, damage: int)
    requires
        i32::MIN <= p.health - damage <= i32::MAX,
    ensures
        after_hit(p, damage).health >= 0,
        p.health - damage > 0 ==> after_hit(p, damage).health == p.health - damage,
        p.health - damage <= 0 ==> after_hit(p, damage).health == 0,
{
}

/// The game is over after a hit exactly when it was over before or the
/// health has run out; the hit ends the game exactly when it was not over yet
/// and the health has run out, and the cannon can then no longer fire.
pub proof fn law_game_over_when_health_runs_out(p: Player, damage: int)
    requires
        i32::MIN <= p.health - damage <= i32::MAX,
    ensures
        after_hit(p, damage).game_over == (p.game_over || after_hit(p, damage).health == 0),
        hit_ends_game(p, damage) == (!p.game_over && after_hit(p, damage).health == 0),
        hit_ends_game(p, damage) ==> !after_hit(p, damage).can_shoot,
{
}

/// Once the game is over it stays over, and no later hit ends it again.
pub proof fn law_game_over_is_final(p: Player, damage: int, amount: int, area: DetectedArea)
    requires
        p.game_over,
    ensures
        !hit_ends_game(p, damage),
        after_hit(p, damage).game_over,
        after_score(p, amount).game_over,
        after_hit_zone(p, area).game_over,
        after_shot(p).game_over,
        after_release(p).game_over,
{
}

/// A dead player cannot shoot: a fresh player satisfies this, and every
/// operation on the player keeps it, including the stopper that re-arms the
/// cannon after a bullet that was in flight when the game ended.
pub proof fn law_dead_player_cannot_shoot(
    p: Player,
    click_pressed: bool,
    damage: int,
    amount: int,
    area: DetectedArea,
)
    requires
        disarmed_when_over(p),
    ensures
        disarmed_when_over(
            Player { can_shoot: true, game_over: false, health: START_HEALTH, score: 0 },
        ),
        disarmed_when_over(after_hit(p, damage)),
        disarmed_when_over(after_score(p, amount)),
        disarmed_when_over(after_hit_zone(p, area)),
        disarmed_when_over(after_shot(p)),
        disarmed_when_over(after_release(p)),
        p.game_over ==> !fires(p, click_pressed),
{
}

/// The player after `n` enemy bullets, one after the other.
pub open spec fn after_enemy_hits(p: Player, n: nat) -> Player
    decreases n,
{
    if n == 0 {
        p
    } else {
        after_hit(after_enemy_hits(p, (n - 1) as nat), ENEMY_BULLET_DAMAGE as int)
    }
}

/// A player with `h > 0` health whose game is not over survives `h - 1`
/// enemy bullets, each taking one point of health, and the next one ends the
/// game.
pub proof fn law_health_counts_hits(p: Player, n: nat)
    requires
        !p.game_over,
        n < p.health,
    ensures
        after_enemy_hits(p, n) == (Player { health: (p.health - n) as i32, ..p }),
        hit_ends_game(after_enemy_hits(p, n), ENEMY_BULLET_DAMAGE as int) <==> n + 1 == p.health,
    decreases n,
{
    if n > 0 {
        law_health_counts_hits(p, (n - 1) as nat);
    }
}

/// Every enemy bullet that enters the hit zone takes exactly one point of
/// health (never going below zero), whatever the player's other state, such
/// as a bullet of its own in flight; it leaves the score alone, and it ends
/// the game exactly when the game was not over and the health runs out.
pub proof fn law_enemy_bullet_always_damages(p: Player, area: DetectedArea)
    requires
        is_bullet_of(area, "enemy"@),
        p.health > i32::MIN,
    ensures
        after_hit_zone(p, area).health == (if p.health > 1 { p.health - 1 } else { 0 }),
        after_hit_zone(p, area).health < p.health || p.health <= 0,
        after_hit_zone(p, area).score == p.score,
        after_hit_zone(p, area).game_over == (p.game_over || p.health <= 1),
        after_hit_zone(p, area).can_shoot == (p.can_shoot && (p.game_over || p.health > 1)),
        (hit_zone_outcome(p, area) == HitOutcome::GameOver) == (!p.game_over && p.health <= 1),
        (hit_zone_outcome(p, area) == HitOutcome::Damaged) == (p.game_over || p.health > 1),
        hit_zone_outcome(p, area) != HitOutcome::Ignored,
{
}

/// Points always count: adding points raises the score by exactly that
/// amount, also once the game is over, and changes nothing else.
pub proof fn law_points_always_count(p: Player, amount: int)
    requires
        i32::MIN <= p.score + amount <= i32::MAX,
    ensures
        after_score(p, amount).score == p.score + amount,
        after_score(p, amount).health == p.health,
        after_score(p, amount).game_over == p.game_over,
        after_score(p, amount).can_shoot == p.can_shoot,
{
}

/// A new bullet gets the configured speed of its owner: the player's speed
/// for the animation `player`, the configured enemy speed for any other.
pub proof fn law_bullet_speed_follows_configuration(b: BulletBrain, animation: Seq<char>)
    ensures
        animation == "player"@ ==> speed_for(b, animation) == b.player_bullet_speed,
        animation != "player"@ ==> speed_for(b, animation) == b.enemy_bullet_speed,
        speed_for(b, animation) == b.player_bullet_speed || speed_for(b, animation)
            == b.enemy_bullet_speed,
{
}

/// Scores add up: two additions give what their sum gives at once.
pub proof fn law_scores_add_up(p: Player, a: int, b: int)
    requires
        i32::MIN <= p.score + a <= i32::MAX,
        i32::MIN <= p.score + a + b <= i32::MAX,
    ensures
        after_score(after_score(p, a), b) == after_score(p, a + b),
{
}

/// One player bullet at a time: once the cannon has fired, no click fires it
/// again, and neither hits, nor points, nor anything entering the hit zone
/// re-arm it; only the stopper does, after which a click fires again unless
/// the game is over.
pub proof fn law_one_bullet_in_flight(
    p: Player,
    click_pressed: bool,
    damage: int,
    amount: int,
    area: DetectedArea,
)
    ensures
        !fires(after_shot(p), click_pressed),
        !p.can_shoot ==> !after_hit(p, damage).can_shoot,
        !p.can_shoot ==> !after_score(p, amount).can_shoot,
        !p.can_shoot ==> !after_hit_zone(p, area).can_shoot,
        fires(after_release(p), click_pressed) == (click_pressed && !p.game_over),
{
}

/// Anything but an enemy bullet entering the hit zone leaves the player as
/// it was.
pub proof fn law_only_enemy_bullets_hurt(p: Player, area: DetectedArea)
    requires
        !crate::area::is_bullet_of(area, "enemy"@),
    ensures
        after_hit_zone(p, area) == p,
        hit_zone_outcome(p, area) == HitOutcome::Ignored,
{
}

} // verus!

use missile_intercept::area::{enemy_animation, player_animation, DetectedArea};
use missile_intercept::bullet_brain::BulletBrain;
use missile_intercept::bullet_stopper::BulletStopper;
use missile_intercept::cannon_barrel::CannonBarrel;
use missile_intercept::explosion::Explosion;
use missile_intercept::player::{HitOutcome, Player};

fn area(animation: Option<&str>, is_bullet: bool) -> DetectedArea {
    DetectedArea { animation: animation.map(|a| a.to_string()), is_bullet }
}

#[test]
fn new_player_starts_ready() {
    let p = Player::new();
    assert_eq!(p, Player { can_shoot: true, game_over: false, health: 3, score: 0 });
}

#[test]
fn hit_takes_health_off() {
    let mut p = Player::new();
    assert!(!p.hit_player(1));
    assert_eq!(p.health, 2);
    assert!(!p.game_over);
    assert!(p.can_shoot);
}

#[test]
fn hit_never_leaves_negative_health() {
    let mut p = Player::new();
    assert!(p.hit_player(10));
    assert_eq!(p.health, 0);
    assert!(p.game_over);
    assert!(!p.can_shoot);
}

#[test]
fn game_over_starts_only_once() {
    let mut p = Player::new();
    assert!(p.hit_player(3));
    assert!(!p.hit_player(1));
    assert!(p.game_over);
    assert_eq!(p.health, 0);
}

#[test]
fn negative_damage_heals() {
    let mut p = Player::new();
    assert!(!p.hit_player(-2));
    assert_eq!(p.health, 5);
}

#[test]
fn zero_health_player_ends_game_on_any_hit() {
    let mut p = Player { can_shoot: true, game_over: false, health: 0, score: 0 };
    assert!(p.hit_player(0));
    assert!(p.game_over);
}

#[test]
fn three_enemy_bullets_end_a_fresh_round() {
    let mut p = Player::new();
    let enemy = area(Some("enemy"), true);
    assert_eq!(p.on_player_hit_zone_area_entered(&enemy), HitOutcome::Damaged);
    assert_eq!(p.on_player_hit_zone_area_entered(&enemy), HitOutcome::Damaged);
    assert_eq!(p.on_player_hit_zone_area_entered(&enemy), HitOutcome::GameOver);
    assert_eq!(p.health, 0);
    assert_eq!(p.on_player_hit_zone_area_entered(&enemy), HitOutcome::Damaged);
    assert_eq!(p.health, 0);
    assert!(p.game_over);
}

#[test]
fn hit_zone_ignores_everything_but_enemy_bullets() {
    let mut p = Player::new();
    for a in [
        area(Some("player"), true),
        area(None, true),
        area(Some("enemy"), false),
        area(Some("Enemy"), true),
        area(Some(""), true),
    ] {
        assert_eq!(p.on_player_hit_zone_area_entered(&a), HitOutcome::Ignored);
    }
    assert_eq!(p, Player::new());
}

#[test]
fn scores_add_up() {
    let mut p = Player::new();
    p.add_score(1);
    p.add_score(1);
    p.add_score(5);
    assert_eq!(p.score, 7);
    p.add_score(-3);
    assert_eq!(p.score, 4);
    assert_eq!(p.health, 3);
}

#[test]
fn restart_only_after_game_over() {
    let mut p = Player::new();
    assert!(!p.should_restart(true));
    p.hit_player(3);
    assert!(p.should_restart(true));
    assert!(!p.should_restart(false));
}

#[test]
fn hud_text_of_a_fresh_round() {
    assert_eq!(Player::new().hud_text(), "HEALTH: 3     SCORE: 0");
}

#[test]
fn hud_text_with_several_digits_and_signs() {
    let p = Player { can_shoot: true, game_over: false, health: -5, score: 1207 };
    assert_eq!(p.hud_text(), "HEALTH: -5     SCORE: 1207");
    let q = Player { can_shoot: false, game_over: true, health: 10, score: 90 };
    assert_eq!(q.hud_text(), "HEALTH: 10     SCORE: 90");
}

#[test]
fn hud_text_at_the_integer_limits() {
    let p = Player { can_shoot: true, game_over: false, health: i32::MIN, score: i32::MAX };
    assert_eq!(p.hud_text(), "HEALTH: -2147483648     SCORE: 2147483647");
}

#[test]
fn hud_text_matches_std_formatting() {
    for (h, s) in [(0, 0), (7, 19), (-1, -100), (123456, 9)] {
        let p = Player { can_shoot: true, game_over: false, health: h, score: s };
        assert_eq!(p.hud_text(), format!("HEALTH: {}     SCORE: {}", h, s));
    }
}

#[test]
fn explosion_scores_one_point_per_enemy_bullet() {
    assert_eq!(Explosion::on_explosion_area_entered(&area(Some("enemy"), true)), Some(1));
    assert_eq!(Explosion::on_explosion_area_entered(&area(Some("player"), true)), None);
    assert_eq!(Explosion::on_explosion_area_entered(&area(None, true)), None);
    assert_eq!(Explosion::on_explosion_area_entered(&area(Some("enemy"), false)), None);
}

#[test]
fn stopper_catches_only_the_player_bullet() {
    assert!(BulletStopper::on_bullet_stopper_area_entered(&area(Some("player"), true)));
    assert!(!BulletStopper::on_bullet_stopper_area_entered(&area(Some("enemy"), true)));
    assert!(!BulletStopper::on_bullet_stopper_area_entered(&area(None, true)));
    assert!(!BulletStopper::on_bullet_stopper_area_entered(&area(Some("player"), false)));
}

#[test]
fn one_bullet_in_flight() {
    let mut p = Player::new();
    assert!(CannonBarrel::input(&p, true));
    assert!(!CannonBarrel::input(&p, false));
    CannonBarrel::shoot_at_mouse(&mut p);
    assert!(!p.can_shoot);
    assert!(!CannonBarrel::input(&p, true));
    p.add_score(1);
    p.hit_player(1);
    assert!(!CannonBarrel::input(&p, true));
    BulletStopper::release_cannon(&mut p);
    assert!(CannonBarrel::input(&p, true));
    assert_eq!(p, Player { can_shoot: true, game_over: false, health: 2, score: 1 });
}

#[test]
fn bullet_speed_by_owner() {
    let brain = BulletBrain::new();
    assert_eq!(brain, BulletBrain { player_bullet_speed: 300, enemy_bullet_speed: 250 });
    assert_eq!(brain.bullet_speed("player"), 300);
    assert_eq!(brain.bullet_speed("enemy"), 250);
    assert_eq!(brain.bullet_speed(""), 250);
    assert_eq!(brain.bullet_speed("players"), 250);
    let custom = BulletBrain { player_bullet_speed: -4, enemy_bullet_speed: 7 };
    assert_eq!(custom.bullet_speed("player"), -4);
}

#[test]
fn animation_names() {
    assert_eq!(player_animation(), "player");
    assert_eq!(enemy_animation(), "enemy");
    assert!(area(Some("enemy"), true).is_bullet_of("enemy"));
    assert!(!area(Some("enemy"), true).is_bullet_of("player"));
}

#[test]
fn dead_player_stays_disarmed_when_its_bullet_stops() {
    let mut p = Player::new();
    CannonBarrel::shoot_at_mouse(&mut p);
    assert!(p.hit_player(3));
    assert!(p.game_over);
    BulletStopper::release_cannon(&mut p);
    assert!(!p.can_shoot);
    assert!(!CannonBarrel::input(&p, true));
    assert_eq!(p, Player { can_shoot: false, game_over: true, health: 0, score: 0 });
}

#[test]
fn every_operation_keeps_a_dead_player_disarmed() {
    let mut p = Player::new();
    p.hit_player(5);
    p.add_score(2);
    p.hit_player(-4);
    assert!(!p.can_shoot);
    assert_eq!(p.on_player_hit_zone_area_entered(&area(Some("enemy"), true)), HitOutcome::Damaged);
    BulletStopper::release_cannon(&mut p);
    CannonBarrel::shoot_at_mouse(&mut p);
    BulletStopper::release_cannon(&mut p);
    assert!(p.game_over);
    assert!(!p.can_shoot);
}

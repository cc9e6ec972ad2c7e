use butter_biscuit::enemy::{choose_target, draw_roll, Butter, Enemy, TargetRoll};
use butter_biscuit::player::Player;
use butter_biscuit::vectors::Vec2;
use web_time::Instant;

fn roll(policy: u32, first: i64, second: i64, flip_first: bool, flip_second: bool) -> TargetRoll {
    TargetRoll { policy, first, second, flip_first, flip_second }
}

#[test]
fn new_enemy_is_healthy_and_undecided() {
    let e = Enemy::new(Vec2::new(-50_000, 300_000));
    assert_eq!(e.pos, Vec2::new(-50_000, 300_000));
    assert_eq!(e.size, Vec2::new(50_000, 50_000));
    assert_eq!(e.hp, 65_000);
    assert_eq!(e.speed, 40);
    assert_eq!(e.desision_timer, 100_000);
    assert_eq!(e.target_pos, Vec2::new(0, 0));
    assert_eq!(e.current_animation, 0);
    assert!(e.is_valid());
    assert_eq!(e.get_center(), Vec2::new(-25_000, 325_000));
}

#[test]
fn enemy_is_gone_once_its_health_is_below_zero() {
    let mut e = Enemy::new(Vec2::new(0, 0));
    e.on_hit(30_000);
    assert_eq!(e.hp, 35_000);
    assert!(e.is_valid());
    e.on_hit(35_000);
    assert_eq!(e.hp, 0);
    assert!(e.is_valid());
    e.on_hit(1);
    assert_eq!(e.hp, -1);
    assert!(!e.is_valid());
    e.on_hit(-10);
    assert_eq!(e.hp, 9);
    assert!(!e.is_valid());
}

#[test]
fn enemy_health_is_held_at_the_ends() {
    let mut e = Enemy::new(Vec2::new(0, 0));
    e.on_hit(i64::MAX);
    assert_eq!(e.hp, 65_000 - i64::MAX);
    e.on_hit(i64::MAX);
    assert_eq!(e.hp, i64::MIN);
    e.on_hit(1);
    assert_eq!(e.hp, i64::MIN);
    assert!(!e.is_valid());
}

#[test]
fn walk_off_takes_the_nearest_side() {
    let mut e = Enemy::new(Vec2::new(100_000, 400_000));
    e.walk_off();
    assert_eq!(e.target_pos, Vec2::new(-50_000, 400_000));
    let mut e = Enemy::new(Vec2::new(700_000, 400_000));
    e.walk_off();
    assert_eq!(e.target_pos, Vec2::new(850_000, 400_000));
    let mut e = Enemy::new(Vec2::new(400_000, 100_000));
    e.walk_off();
    assert_eq!(e.target_pos, Vec2::new(400_000, -50_000));
    let mut e = Enemy::new(Vec2::new(400_000, 700_000));
    e.walk_off();
    assert_eq!(e.target_pos, Vec2::new(400_000, 850_000));
}

#[test]
fn walk_off_breaks_ties() {
    // all four ways are equally long: down
    let mut e = Enemy::new(Vec2::new(400_000, 400_000));
    e.walk_off();
    assert_eq!(e.target_pos, Vec2::new(400_000, 850_000));
    // left and up are equally long: up
    let mut e = Enemy::new(Vec2::new(100_000, 100_000));
    e.walk_off();
    assert_eq!(e.target_pos, Vec2::new(100_000, -50_000));
    // right and down are equally long: down
    let mut e = Enemy::new(Vec2::new(700_000, 700_000));
    e.walk_off();
    assert_eq!(e.target_pos, Vec2::new(700_000, 850_000));
}

#[test]
fn dead_update_walks_out_of_sight() {
    let player = Player::new(Vec2::new(400_000, 400_000));
    let mut e = Enemy::new(Vec2::new(20_000, 400_000));
    e.walk_off();
    assert_eq!(e.target_pos, Vec2::new(-50_000, 400_000));
    e.dead_update(1_000, &player);
    assert_eq!(e.pos, Vec2::new(-20_000, 400_000));
    assert!(e.is_valid());
    assert_eq!(e.current_animation, 1);
    e.dead_update(500, &player);
    assert_eq!(e.pos, Vec2::new(-40_000, 400_000));
    assert!(e.is_valid());
    e.dead_update(250, &player);
    assert_eq!(e.pos, Vec2::new(-50_000, 400_000));
    assert!(!e.is_valid());
}

#[test]
fn dead_update_does_not_bring_back() {
    let player = Player::new(Vec2::new(400_000, 400_000));
    let mut e = Enemy::new(Vec2::new(400_000, 600_000));
    e.on_hit(100_000);
    e.walk_off();
    e.dead_update(100, &player);
    assert_eq!(e.pos, Vec2::new(400_000, 604_000));
    assert_eq!(e.current_animation, 0);
    assert!(!e.is_valid());
}

#[test]
fn enemy_fires_after_two_seconds() {
    let mut e = Enemy::new(Vec2::new(100_000, 100_000));
    let mut butters: Vec<Butter> = Vec::new();
    let before = e.shot_cooldown;
    assert!(!e.fire(2_000, Vec2::new(125_000, 425_000), &mut butters, Instant::now()));
    assert!(butters.is_empty());
    assert_eq!(e.shot_cooldown, before);
    let reading = Instant::now();
    assert!(e.fire(2_001, Vec2::new(125_000, 425_000), &mut butters, reading));
    assert_eq!(e.shot_cooldown, reading);
    assert_eq!(butters.len(), 1);
    assert_eq!(butters[0], Butter::new(Vec2::new(125_000, 125_000), Vec2::new(125_000, 425_000)));
    assert_eq!(butters[0].velocity, Vec2::new(0, -100_000));
}

#[test]
fn decision_timer_keeps_the_rest() {
    let mut e = Enemy::new(Vec2::new(0, 0));
    assert!(e.decide(16));
    assert_eq!(e.desision_timer, 1_016);
    assert!(!e.decide(400));
    assert_eq!(e.desision_timer, 1_416);
    assert!(!e.decide(84));
    assert_eq!(e.desision_timer, 1_500);
    assert!(e.decide(16));
    assert_eq!(e.desision_timer, 16);
    assert!(e.decide(u32::MAX));
    assert_eq!(e.desision_timer, (16 + u32::MAX as u64) % 1_500);
}

#[test]
fn low_rolls_pursue() {
    let center = Vec2::new(425_000, 425_000);
    assert_eq!(choose_target(center, &roll(0, 0, 0, false, false)), center);
    assert_eq!(choose_target(center, &roll(333, 7, 9, true, true)), center);
}

#[test]
fn middle_rolls_flank() {
    let center = Vec2::new(425_000, 425_000);
    assert_eq!(choose_target(center, &roll(334, 100_000, 0, true, false)), Vec2::new(325_000, 725_000));
    assert_eq!(choose_target(center, &roll(500, 100_000, 0, true, true)), Vec2::new(325_000, 1_050_000));
    assert_eq!(choose_target(center, &roll(666, 100_000, 0, false, false)), Vec2::new(425_000, 725_000));
    assert_eq!(choose_target(center, &roll(666, 299_999, 0, false, true)), Vec2::new(425_000, 1_150_000));
}

#[test]
fn high_rolls_wander() {
    let center = Vec2::new(425_000, 425_000);
    assert_eq!(choose_target(center, &roll(667, 12_345, 678_901, true, true)), Vec2::new(12_345, 678_901));
    assert_eq!(choose_target(center, &roll(999, 0, 799_999, false, false)), Vec2::new(0, 799_999));
}

#[test]
fn retarget_sets_only_the_target() {
    let mut e = Enemy::new(Vec2::new(10_000, 20_000));
    e.retarget(Vec2::new(425_000, 425_000), &roll(700, 1_000, 2_000, false, false));
    assert_eq!(e.target_pos, Vec2::new(1_000, 2_000));
    assert_eq!(e.pos, Vec2::new(10_000, 20_000));
    assert_eq!(e.hp, 65_000);
    assert_eq!(e.desision_timer, 100_000);
}

#[test]
fn drawn_rolls_lie_in_their_ranges() {
    let mut rng = rand::thread_rng();
    let mut kinds = [0u32; 3];
    for _ in 0..3_000 {
        let r = draw_roll(&mut rng);
        assert!(r.policy < 1_000);
        if r.policy <= 333 {
            kinds[0] += 1;
        } else if r.policy <= 666 {
            kinds[1] += 1;
            assert!(0 <= r.first && r.first < 300_000);
        } else {
            kinds[2] += 1;
            assert!(0 <= r.first && r.first < 800_000);
            assert!(0 <= r.second && r.second < 800_000);
        }
    }
    assert!(kinds.iter().all(|&k| k > 0));
}

#[test]
fn switch_target_picks_one_of_the_three_kinds() {
    let player = Player::new(Vec2::new(400_000, 400_000));
    let mut rng = rand::thread_rng();
    let mut e = Enemy::new(Vec2::new(0, 0));
    for _ in 0..500 {
        e.switch_target(&player, &mut rng);
        let t = e.target_pos;
        let pursues = t == Vec2::new(425_000, 425_000);
        let flanks = 125_000 < t.x && t.x <= 425_000 && (t.y == 725_000 || t.y == 725_000 + t.x);
        let wanders = 0 <= t.x && t.x < 800_000 && 0 <= t.y && t.y < 800_000;
        assert!(pursues || flanks || wanders);
        assert_eq!(e.pos, Vec2::new(0, 0));
    }
}

#[test]
fn enemy_walks_forty_units_a_second() {
    let mut e = Enemy::new(Vec2::new(0, 0));
    e.target_pos = Vec2::new(300_000, 400_000);
    assert!(!e.advance(25));
    assert_eq!(e.pos, Vec2::new(600, 800));
    assert_eq!(e.desision_timer, 100_000);
    assert!(!e.advance(1_000));
    assert_eq!(e.pos, Vec2::new(24_600, 32_800));
}

#[test]
fn arrival_starts_the_decision_timer_over() {
    let mut e = Enemy::new(Vec2::new(0, 0));
    e.target_pos = Vec2::new(40_000, 0);
    assert!(e.advance(1_000));
    assert_eq!(e.pos, Vec2::new(40_000, 0));
    assert_eq!(e.desision_timer, 0);
    // it stays on its target
    assert!(e.advance(1_000));
    assert_eq!(e.pos, Vec2::new(40_000, 0));
}

#[test]
fn enemy_shows_its_wind_up() {
    let mut e = Enemy::new(Vec2::new(100_000, 100_000));
    e.face(1_500, Vec2::new(0, 100_000));
    assert_eq!(e.current_animation, 0);
    e.face(1_501, Vec2::new(0, 100_000));
    assert_eq!(e.current_animation, 2);
    e.face(0, Vec2::new(0, 99_999));
    assert_eq!(e.current_animation, 1);
    e.face(3_000, Vec2::new(0, 0));
    assert_eq!(e.current_animation, 3);
}

#[test]
fn update_of_a_new_enemy_picks_a_target_and_walks() {
    let player = Player::new(Vec2::new(400_000, 400_000));
    let mut rng = rand::thread_rng();
    let mut butters: Vec<Butter> = Vec::new();
    let mut e = Enemy::new(Vec2::new(-50_000, 400_000));
    e.update(1_000, &player, &mut butters, &mut rng);
    assert!(butters.is_empty());
    assert!(e.is_valid());
    assert_eq!(e.hp, 65_000);
    assert!(e.desision_timer < 1_500);
    let dx = e.pos.x + 50_000;
    let dy = e.pos.y - 400_000;
    assert!(dx.abs() <= 40_000 && dy.abs() <= 40_000);
    assert!(dx * dx + dy * dy > 39_000i64 * 39_000);
    assert!(e.current_animation < 2);
}

#[test]
fn enemy_walks_no_further_than_its_speed_allows() {
    let player = Player::new(Vec2::new(400_000, 400_000));
    let mut e = Enemy::new(Vec2::new(0, 0));
    e.target_pos = Vec2::new(1, 1);
    e.dead_update(1_000, &player);
    // 40 units along the diagonal are 28.284 on each axis
    assert_eq!(e.pos, Vec2::new(28_284, 28_284));
    let mut e = Enemy::new(Vec2::new(0, 0));
    e.target_pos = Vec2::new(-1, 1);
    assert!(!e.advance(1_000));
    assert_eq!(e.pos, Vec2::new(-28_284, 28_284));
}

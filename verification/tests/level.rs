use butter_biscuit::enemy::{Butter, Enemy};
use butter_biscuit::level::Level;
use butter_biscuit::player::Input;
use butter_biscuit::vectors::Vec2;

fn idle() -> Input {
    Input {
        mouse: Vec2::new(500_000, 425_000),
        up: false,
        down: false,
        left: false,
        right: false,
        attack_down: false,
        attack_released: false,
    }
}

fn on_an_edge(e: &Enemy) -> bool {
    let along = |v: i64| 0 <= v && v < 800_000;
    ((e.pos.x == -50_000 || e.pos.x == 850_000) && along(e.pos.y))
        || ((e.pos.y == -50_000 || e.pos.y == 850_000) && along(e.pos.x))
}

fn fresh(e: &Enemy) -> bool {
    e.is_valid() && e.hp == 65_000 && e.desision_timer == 100_000 && e.target_pos == Vec2::new(0, 0)
}

#[test]
fn new_level_is_empty() {
    let level = Level::new();
    assert_eq!(level.get_wave(), 1);
    assert_eq!(level.get_kills(), 0);
    assert!(!level.player_dead());
    assert!(level.enemies.is_empty());
    assert!(level.butters.is_empty());
    assert_eq!(level.enemies_spawned, 0);
    assert_eq!(level.spawn_timer, 0);
    assert_eq!(level.player.pos, Vec2::new(400_000, 400_000));
    assert!(!level.is_wave_over());
}

#[test]
fn place_enemy_puts_it_outside_the_arena() {
    let mut level = Level::new();
    level.place_enemy(0, 123_000);
    level.place_enemy(1, 0);
    level.place_enemy(2, 799_999);
    assert_eq!(level.enemies[0].pos, Vec2::new(-50_000, 123_000));
    assert_eq!(level.enemies[1].pos, Vec2::new(850_000, 0));
    assert_eq!(level.enemies[2].pos, Vec2::new(799_999, -50_000));
    assert!(level.enemies.iter().all(fresh));
    assert_eq!(level.enemies_spawned, 3);
    assert_eq!(level.spawn_timer, 10_000);
    let mut level = Level::new();
    level.place_enemy(3, 400_000);
    assert_eq!(level.enemies[0].pos, Vec2::new(400_000, 850_000));
}

#[test]
fn spawner_waits_for_its_timer() {
    let mut level = Level::new();
    assert!(level.is_spawn_due());
    level.spawn_enemy(16);
    assert_eq!(level.enemies.len(), 1);
    assert!(on_an_edge(&level.enemies[0]));
    assert!(fresh(&level.enemies[0]));
    assert_eq!(level.enemies_spawned, 1);
    assert_eq!(level.spawn_timer, 10_000);
    assert!(!level.is_spawn_due());
    level.spawn_enemy(9_999);
    assert_eq!(level.enemies.len(), 1);
    assert_eq!(level.spawn_timer, 1);
    level.spawn_enemy(1);
    assert_eq!(level.enemies.len(), 2);
    assert_eq!(level.enemies_spawned, 2);
    assert_eq!(level.spawn_timer, 10_000);
}

#[test]
fn spawner_stops_at_the_crowd() {
    let mut level = Level::new();
    for _ in 0..10 {
        level.spawn_enemy(10_001);
    }
    // the first wave lets three be about at once
    assert_eq!(level.enemies.len(), 3);
    assert_eq!(level.enemies_spawned, 3);
    assert!(level.spawn_timer < 0);
    assert!(level.enemies.iter().all(on_an_edge));
}

#[test]
fn spawner_stops_at_the_size_of_the_wave() {
    let mut level = Level::new();
    for _ in 0..4 {
        level.spawn_enemy(10_001);
        level.enemies.clear();
    }
    assert_eq!(level.enemies_spawned, 4);
    level.spawn_enemy(10_001);
    assert!(level.enemies.is_empty());
    assert_eq!(level.enemies_spawned, 4);
    assert!(level.is_wave_over());
}

#[test]
fn spawn_timer_is_held_at_the_bottom() {
    let mut level = Level::new();
    level.enemies_spawned = 4;
    level.spawn_timer = i64::MIN + 5;
    level.spawn_enemy(10);
    assert_eq!(level.spawn_timer, i64::MIN);
}

#[test]
fn first_wave_ends_after_four_kills() {
    let mut level = Level::new();
    let input = idle();
    let mut rounds = 0;
    while level.get_wave() == 1 {
        level.update(&input, 10_001);
        assert!(level.enemies.len() <= 3);
        if level.get_wave() == 1 {
            assert_eq!((level.player.hp, level.player.max_hp), (3, 3));
            for e in level.enemies.iter_mut() {
                e.on_hit(70_000);
            }
        }
        rounds += 1;
        assert!(rounds < 20);
    }
    assert_eq!(level.get_wave(), 2);
    assert_eq!(level.get_kills(), 4);
    // rewarded once: the player was at full health, so the cap went up
    assert_eq!((level.player.hp, level.player.max_hp), (4, 4));
    // the second wave has begun with its first enemy
    assert_eq!(level.enemies.len(), 1);
    assert!(on_an_edge(&level.enemies[0]));
    assert_eq!(level.enemies_spawned, 1);
    assert_eq!(level.spawn_timer, 8_340);
    level.update(&input, 16);
    assert_eq!(level.get_wave(), 2);
    assert_eq!((level.player.hp, level.player.max_hp), (4, 4));
    assert_eq!(level.get_kills(), 4);
}

#[test]
fn hurt_player_is_healed_at_the_end_of_the_wave() {
    let mut level = Level::new();
    level.player.on_hit();
    level.enemies_spawned = 4;
    level.spawn_timer = 5_000;
    level.update(&idle(), 16);
    assert_eq!(level.get_wave(), 2);
    assert_eq!((level.player.hp, level.player.max_hp), (3, 3));
    assert_eq!(level.get_kills(), 0);
}

#[test]
fn kills_are_counted_as_enemies_leave() {
    let mut level = Level::new();
    level.place_enemy(0, 100_000);
    level.place_enemy(1, 200_000);
    level.place_enemy(2, 300_000);
    level.enemies[0].on_hit(100_000);
    level.enemies[2].on_hit(100_000);
    level.update(&idle(), 16);
    assert_eq!(level.get_kills(), 2);
    assert_eq!(level.enemies.len(), 1);
    assert!(level.enemies[0].is_valid());
    assert_eq!(level.get_wave(), 1);
    level.update(&idle(), 16);
    assert_eq!(level.get_kills(), 2);
}

#[test]
fn update_lets_a_butter_hit_the_player() {
    let mut level = Level::new();
    level.butters.push(Butter::new(Vec2::new(425_000, 400_000), Vec2::new(425_000, 425_000)));
    level.butters.push(Butter::new(Vec2::new(100_000, 100_000), Vec2::new(425_000, 425_000)));
    level.update(&idle(), 100);
    assert_eq!(level.player.hp, 2);
    assert_eq!(level.butters.len(), 1);
    assert!(level.butters[0].valid);
    assert_eq!(level.butters[0].pos, Vec2::new(107_071, 107_071));
}

#[test]
fn update_drops_butters_that_leave_the_arena() {
    let mut level = Level::new();
    level.butters.push(Butter::new(Vec2::new(5_000, 400_000), Vec2::new(-100_000, 400_000)));
    level.butters.push(Butter::new(Vec2::new(10_000, 400_000), Vec2::new(-100_000, 400_000)));
    level.update(&idle(), 100);
    assert_eq!(level.butters.len(), 1);
    assert_eq!(level.butters[0].pos, Vec2::new(0, 400_000));
    level.update(&idle(), 10);
    assert!(level.butters.is_empty());
    assert_eq!(level.player.hp, 3);
}

#[test]
fn update_sends_the_enemies_off_when_the_player_dies() {
    let mut level = Level::new();
    level.player.hp = 1;
    level.place_enemy(0, 100_000);
    level.butters.push(Butter::new(Vec2::new(425_000, 430_000), Vec2::new(425_000, 430_000)));
    level.update(&idle(), 16);
    assert!(level.player_dead());
    assert_eq!(level.get_wave(), 1);
    assert!(level.butters.is_empty());
    assert!(!level.enemies.is_empty());
    for e in level.enemies.iter() {
        assert!(e.target_pos.x == -50_000 || e.target_pos.x == 850_000 || e.target_pos.y == -50_000
            || e.target_pos.y == 850_000);
        assert!(e.target_pos.x == e.pos.x || e.target_pos.y == e.pos.y);
    }
}

#[test]
fn dead_update_lets_the_enemies_leave() {
    let mut level = Level::new();
    level.place_enemy(0, 100_000);
    level.place_enemy(3, 500_000);
    level.enemies[0].pos = Vec2::new(30_000, 100_000);
    level.enemies[1].pos = Vec2::new(500_000, 700_000);
    level.player.hp = 0;
    level.walk_off_all();
    assert_eq!(level.enemies[0].target_pos, Vec2::new(-50_000, 100_000));
    assert_eq!(level.enemies[1].target_pos, Vec2::new(500_000, 850_000));
    let spawned = level.enemies_spawned;
    level.dead_update(&idle(), 1_000);
    assert_eq!(level.enemies.len(), 2);
    assert_eq!(level.enemies[0].pos, Vec2::new(-10_000, 100_000));
    assert_eq!(level.enemies[1].pos, Vec2::new(500_000, 740_000));
    level.dead_update(&idle(), 1_000);
    assert_eq!(level.enemies.len(), 1);
    assert_eq!(level.enemies[0].pos, Vec2::new(500_000, 780_000));
    for _ in 0..2 {
        level.dead_update(&idle(), 1_000);
    }
    assert!(level.enemies.is_empty());
    assert_eq!(level.get_kills(), 0);
    assert_eq!(level.get_wave(), 1);
    assert_eq!(level.enemies_spawned, spawned);
    assert!(level.player_dead());
}

#[test]
fn dead_update_still_moves_butters() {
    let mut level = Level::new();
    level.player.hp = 0;
    level.butters.push(Butter::new(Vec2::new(100_000, 100_000), Vec2::new(200_000, 100_000)));
    level.dead_update(&idle(), 500);
    assert_eq!(level.butters.len(), 1);
    assert_eq!(level.butters[0].pos, Vec2::new(150_000, 100_000));
    assert!(level.enemies.is_empty());
}

#[test]
fn set_wave_rewards_only_on_the_way_up() {
    let mut level = Level::new();
    level.set_wave(3);
    assert_eq!(level.get_wave(), 3);
    assert_eq!((level.player.hp, level.player.max_hp), (4, 4));
    assert_eq!(level.enemies.len(), 1);
    assert_eq!(level.enemies_spawned, 1);
    assert_eq!(level.spawn_timer, 6_680);
    level.enemies.clear();
    level.set_wave(3);
    assert_eq!((level.player.hp, level.player.max_hp), (4, 4));
    assert_eq!(level.enemies_spawned, 1);
}

#[test]
fn restart_twice_is_restart_once() {
    let mut level = Level::new();
    level.set_wave(5);
    level.player.on_hit();
    level.total_kills = 17;
    level.butters.push(Butter::new(Vec2::new(100_000, 100_000), Vec2::new(200_000, 100_000)));
    level.player.pos = Vec2::new(10_000, 20_000);
    level.restart();
    let once = (
        level.get_wave(),
        level.get_kills(),
        level.butters.len(),
        level.enemies.len(),
        level.enemies_spawned,
        level.spawn_timer,
        level.player.hp,
        level.player.max_hp,
        level.player.pos,
    );
    assert_eq!(once, (1, 0, 0, 1, 1, 10_000, 3, 3, Vec2::new(400_000, 400_000)));
    assert!(on_an_edge(&level.enemies[0]) && fresh(&level.enemies[0]));
    level.restart();
    let twice = (
        level.get_wave(),
        level.get_kills(),
        level.butters.len(),
        level.enemies.len(),
        level.enemies_spawned,
        level.spawn_timer,
        level.player.hp,
        level.player.max_hp,
        level.player.pos,
    );
    assert_eq!(twice, once);
    assert!(on_an_edge(&level.enemies[0]) && fresh(&level.enemies[0]));
}

#[test]
fn prune_keeps_the_order() {
    let mut level = Level::new();
    level.place_enemy(0, 1_000);
    level.place_enemy(0, 2_000);
    level.place_enemy(0, 3_000);
    level.enemies[1].on_hit(100_000);
    assert_eq!(level.prune_enemies(), 1);
    assert_eq!(level.enemies.len(), 2);
    assert_eq!(level.enemies[0].pos.y, 1_000);
    assert_eq!(level.enemies[1].pos.y, 3_000);
    assert_eq!(level.prune_enemies(), 0);
    let mut spent = Butter::new(Vec2::new(10_000, 10_000), Vec2::new(20_000, 10_000));
    spent.valid = false;
    level.butters.push(Butter::new(Vec2::new(0, 0), Vec2::new(20_000, 10_000)));
    level.butters.push(spent);
    level.butters.push(Butter::new(Vec2::new(-1, 10_000), Vec2::new(20_000, 10_000)));
    level.butters.push(Butter::new(Vec2::new(800_000, 800_000), Vec2::new(20_000, 10_000)));
    level.butters.push(Butter::new(Vec2::new(800_001, 10_000), Vec2::new(20_000, 10_000)));
    level.butters.push(Butter::new(Vec2::new(10_000, -1), Vec2::new(20_000, 10_000)));
    level.prune_butters();
    assert_eq!(level.butters.len(), 2);
    assert_eq!(level.butters[0].pos, Vec2::new(0, 0));
    assert_eq!(level.butters[1].pos, Vec2::new(800_000, 800_000));
}

#[test]
fn update_enemies_moves_each_enemy_once() {
    let mut level = Level::new();
    level.place_enemy(0, 400_000);
    level.place_enemy(1, 400_000);
    level.update_enemies(1_000);
    assert_eq!(level.enemies.len(), 2);
    assert!(level.butters.is_empty());
    for (e, start) in level.enemies.iter().zip([Vec2::new(-50_000, 400_000), Vec2::new(850_000, 400_000)]) {
        let dx = e.pos.x - start.x;
        let dy = e.pos.y - start.y;
        assert!(dx.abs() <= 40_000 && dy.abs() <= 40_000);
        assert!(dx != 0 || dy != 0);
        assert!(e.desision_timer < 1_500);
        assert_eq!(e.hp, 65_000);
    }
}

#[test]
fn update_butters_lets_each_meet_what_the_others_left() {
    let mut level = Level::new();
    level.place_enemy(0, 400_000);
    level.enemies[0].pos = Vec2::new(400_000, 100_000);
    let mut first = Butter::new(Vec2::new(410_000, 110_000), Vec2::new(410_000, 110_000));
    first.change_target(Vec2::new(410_000, 110_000), 10_000);
    assert_eq!(first.damage, 73_969);
    let second = first;
    level.butters.push(first);
    level.butters.push(second);
    level.update_butters(16);
    // the first one defeats the enemy; the second finds nobody alive
    assert!(!level.butters[0].valid);
    assert!(level.butters[1].valid);
    assert_eq!(level.enemies[0].hp, -8_969);
    assert!(!level.enemies[0].is_valid());
}

#[test]
fn set_wave_goes_back_with_enemies_about() {
    let mut level = Level::new();
    level.set_wave(5);
    for offset in 1..=6 {
        level.place_enemy(0, offset * 1_000);
    }
    assert_eq!(level.enemies.len(), 7);
    let health = (level.player.hp, level.player.max_hp);
    level.set_wave(1);
    assert_eq!(level.get_wave(), 1);
    // the first wave lets three be about, so nobody appears
    assert_eq!(level.enemies.len(), 7);
    assert_eq!(level.enemies_spawned, 0);
    assert_eq!(level.spawn_timer, -1_000);
    assert_eq!((level.player.hp, level.player.max_hp), health);
}

use butter_biscuit::enemy::Butter;
use butter_biscuit::player::{Input, Player, PlayerAnmiationState};
use butter_biscuit::vectors::Vec2;
use web_time::Instant;

fn idle_input(mouse: Vec2) -> Input {
    Input {
        mouse,
        up: false,
        down: false,
        left: false,
        right: false,
        attack_down: false,
        attack_released: false,
    }
}

fn middle() -> Player {
    Player::new(Vec2::new(400_000, 400_000))
}

#[test]
fn new_player_has_three_hearts() {
    let p = middle();
    assert_eq!(p.pos, Vec2::new(400_000, 400_000));
    assert_eq!(p.size, Vec2::new(50_000, 50_000));
    assert_eq!((p.hp, p.max_hp), (3, 3));
    assert!(p.charge_timer.is_none());
    assert_eq!(p.weapon_size, Vec2::new(75_000, 120_000));
    assert_eq!(p.animation_state, PlayerAnmiationState::IdleDown);
    assert_eq!(p.animations.len(), 7);
    assert_eq!(p.attack_animations.len(), 3);
    assert_eq!(p.current_attack_animation, 0);
    assert!(!p.is_dead());
    assert!(p.charge_time().is_none());
}

#[test]
fn player_sheets_have_their_frames() {
    let sheets = Player::create_animations();
    let frames: Vec<usize> = sheets.iter().map(|s| s.frames).collect();
    assert_eq!(frames, vec![4, 4, 4, 6, 6, 6, 1]);
    let weapon = Player::create_attack_animations();
    let frames: Vec<usize> = weapon.iter().map(|s| s.frames).collect();
    assert_eq!(frames, vec![1, 3, 4]);
    assert!(weapon.iter().all(|s| !s.looping));
    assert_eq!(weapon[1].frame_time, 143);
}

#[test]
fn on_hit_takes_one_point_and_stops_at_zero() {
    let mut p = middle();
    p.on_hit();
    assert_eq!(p.hp, 2);
    p.on_hit();
    p.on_hit();
    assert_eq!(p.hp, 0);
    assert!(p.is_dead());
    p.on_hit();
    assert_eq!(p.hp, 0);
    assert_eq!(p.max_hp, 3);
}

#[test]
fn end_wave_heals_a_hurt_player() {
    let mut p = middle();
    p.on_hit();
    p.end_wave();
    assert_eq!((p.hp, p.max_hp), (3, 3));
}

#[test]
fn end_wave_raises_the_cap_of_a_healthy_player() {
    let mut p = middle();
    p.end_wave();
    assert_eq!((p.hp, p.max_hp), (4, 4));
    p.on_hit();
    p.on_hit();
    p.end_wave();
    assert_eq!((p.hp, p.max_hp), (3, 4));
    assert!(p.hp <= p.max_hp);
}

#[test]
fn player_restart_resets_health_and_place() {
    let mut p = Player::new(Vec2::new(10_000, 20_000));
    p.end_wave();
    p.on_hit();
    p.restart();
    assert_eq!((p.hp, p.max_hp), (3, 3));
    assert_eq!(p.pos, Vec2::new(400_000, 400_000));
}

#[test]
fn center_and_hit_box() {
    let p = middle();
    assert_eq!(p.get_center(), Vec2::new(425_000, 425_000));
    let (pos, size) = p.get_hit_box();
    assert_eq!(pos, Vec2::new(400_000, 425_000));
    assert_eq!(size, Vec2::new(50_000, 25_000));
}

#[test]
fn states_from_directions() {
    assert_eq!(PlayerAnmiationState::idle_from_dir(0), PlayerAnmiationState::IdleUp);
    assert_eq!(PlayerAnmiationState::idle_from_dir(1), PlayerAnmiationState::IdleDown);
    assert_eq!(PlayerAnmiationState::idle_from_dir(2), PlayerAnmiationState::IdleLeft);
    assert_eq!(PlayerAnmiationState::idle_from_dir(3), PlayerAnmiationState::IdleRight);
    assert_eq!(PlayerAnmiationState::walking_from_dir(0), PlayerAnmiationState::WalkingUp);
    assert_eq!(PlayerAnmiationState::walking_from_dir(1), PlayerAnmiationState::WalkingDown);
    assert_eq!(PlayerAnmiationState::walking_from_dir(2), PlayerAnmiationState::WalkingLeft);
    assert_eq!(PlayerAnmiationState::walking_from_dir(3), PlayerAnmiationState::WalkingRight);
}

#[test]
fn sheets_of_states() {
    assert_eq!(PlayerAnmiationState::IdleUp.index(), (0, false));
    assert_eq!(PlayerAnmiationState::IdleDown.index(), (1, false));
    assert_eq!(PlayerAnmiationState::IdleLeft.index(), (2, true));
    assert_eq!(PlayerAnmiationState::IdleRight.index(), (2, false));
    assert_eq!(PlayerAnmiationState::WalkingUp.index(), (3, false));
    assert_eq!(PlayerAnmiationState::WalkingDown.index(), (4, false));
    assert_eq!(PlayerAnmiationState::WalkingLeft.index(), (5, true));
    assert_eq!(PlayerAnmiationState::WalkingRight.index(), (5, false));
    assert_eq!(PlayerAnmiationState::Dead.index(), (6, false));
}

#[test]
fn facing_follows_the_cursor() {
    let p = middle();
    assert_eq!(p.facing_dir(Vec2::new(500_000, 425_000)), 3);
    assert_eq!(p.facing_dir(Vec2::new(425_000, 300_000)), 0);
    assert_eq!(p.facing_dir(Vec2::new(425_000, 500_000)), 1);
    assert_eq!(p.facing_dir(Vec2::new(300_000, 425_000)), 2);
}

#[test]
fn facing_on_the_diagonals_and_the_centre() {
    let p = middle();
    // below and to the right, on the diagonal: down
    assert_eq!(p.facing_dir(Vec2::new(500_000, 500_000)), 1);
    // below and to the left, on the diagonal: left
    assert_eq!(p.facing_dir(Vec2::new(350_000, 500_000)), 2);
    // above and to the left, on the diagonal: left
    assert_eq!(p.facing_dir(Vec2::new(350_000, 350_000)), 2);
    // above and to the right, on the diagonal: right
    assert_eq!(p.facing_dir(Vec2::new(500_000, 350_000)), 3);
    // on the centre: right
    assert_eq!(p.facing_dir(Vec2::new(425_000, 425_000)), 3);
}

#[test]
fn step_walks_forty_units_a_second() {
    let mut p = middle();
    let mut butters: Vec<Butter> = Vec::new();
    let mut input = idle_input(Vec2::new(525_000, 425_000));
    input.right = true;
    input.up = true;
    p.step(&input, 1_000, &mut butters, 0, Instant::now());
    assert_eq!(p.pos, Vec2::new(440_000, 360_000));
    assert_eq!(p.animation_state, PlayerAnmiationState::WalkingRight);
    p.step(&input, 16, &mut butters, 0, Instant::now());
    assert_eq!(p.pos, Vec2::new(440_640, 359_360));
}

#[test]
fn step_aims_the_weapon_at_the_cursor() {
    let mut p = middle();
    let mut butters: Vec<Butter> = Vec::new();
    let input = idle_input(Vec2::new(525_000, 425_000));
    p.step(&input, 16, &mut butters, 0, Instant::now());
    assert_eq!(p.weapon_pos, Vec2::new(440_000, 400_000));
    assert_eq!(p.animation_state, PlayerAnmiationState::IdleRight);
    assert_eq!(p.pos, Vec2::new(400_000, 400_000));
}

#[test]
fn opposite_keys_cancel() {
    let mut p = middle();
    let mut butters: Vec<Butter> = Vec::new();
    let mut input = idle_input(Vec2::new(425_000, 300_000));
    input.left = true;
    input.right = true;
    p.step(&input, 1_000, &mut butters, 0, Instant::now());
    assert_eq!(p.pos, Vec2::new(400_000, 400_000));
    assert_eq!(p.animation_state, PlayerAnmiationState::IdleUp);
}

#[test]
fn player_stays_at_the_arena_edge() {
    let mut p = middle();
    let mut butters: Vec<Butter> = Vec::new();
    let mut input = idle_input(Vec2::new(425_000, 425_000));
    input.right = true;
    input.down = true;
    for tick in 0..200 {
        p.step(&input, 100, &mut butters, 0, Instant::now());
        assert!(p.pos.x <= 750_000 && p.pos.y <= 750_000);
        if tick >= 88 {
            assert_eq!(p.pos, Vec2::new(750_000, 750_000));
        }
    }
    input.right = false;
    input.down = false;
    input.left = true;
    input.up = true;
    for _ in 0..300 {
        p.step(&input, 100, &mut butters, 0, Instant::now());
        assert!(p.pos.x >= 0 && p.pos.y >= 0);
    }
    assert_eq!(p.pos, Vec2::new(0, 0));
    p.step(&input, u32::MAX, &mut butters, 0, Instant::now());
    assert_eq!(p.pos, Vec2::new(0, 0));
}

#[test]
fn dead_player_does_nothing() {
    let mut p = middle();
    p.hp = 0;
    let mut butters = vec![Butter::new(Vec2::new(440_000, 400_000), Vec2::new(0, 0))];
    let before = butters.clone();
    let mut input = idle_input(Vec2::new(525_000, 425_000));
    input.right = true;
    input.attack_released = true;
    p.step(&input, 1_000, &mut butters, 5_000, Instant::now());
    assert_eq!(p.animation_state, PlayerAnmiationState::Dead);
    assert_eq!(p.pos, Vec2::new(400_000, 400_000));
    assert_eq!(p.weapon_pos, Vec2::new(0, 0));
    assert_eq!(p.current_attack_animation, 0);
    assert_eq!(butters, before);
}

#[test]
fn holding_the_button_charges() {
    let mut p = middle();
    let mut butters: Vec<Butter> = Vec::new();
    let mut input = idle_input(Vec2::new(525_000, 425_000));
    input.attack_down = true;
    let begun = Instant::now();
    p.step(&input, 16, &mut butters, 0, begun);
    assert_eq!(p.charge_timer, Some(begun));
    assert_eq!(p.current_attack_animation, 1);
    assert!(p.charge_time().is_some());
    // the charging sheet is not done, so holding on changes nothing
    p.step(&input, 16, &mut butters, 16, Instant::now());
    assert_eq!(p.charge_timer, Some(begun));
    assert_eq!(p.current_attack_animation, 1);
}

#[test]
fn release_after_a_long_charge_parries() {
    let mut p = middle();
    let mouse = Vec2::new(525_000, 425_000);
    let mut input = idle_input(mouse);
    input.attack_down = true;
    let under = Butter::new(Vec2::new(450_000, 450_000), Vec2::new(425_000, 425_000));
    let away = Butter::new(Vec2::new(100_000, 100_000), Vec2::new(425_000, 425_000));
    let mut butters = vec![under, away];
    p.step(&input, 16, &mut butters, 0, Instant::now());
    assert_eq!(butters, vec![under, away]);
    input.attack_down = false;
    input.attack_released = true;
    p.step(&input, 16, &mut butters, 201, Instant::now());
    assert!(p.charge_timer.is_none());
    assert_eq!(p.current_attack_animation, 2);
    assert!(butters[0].is_reflected());
    // a charge of 0.201 s earns 33 * log10(0.901) + 10 = 8.505 points
    assert_eq!(butters[0].damage, 38_505);
    assert_eq!(butters[0].pos, under.pos);
    // from (450, 450) toward (525, 425): the way is (75, -25), 79.0569 long
    assert_eq!(butters[0].velocity, Vec2::new(-94_868, 31_622));
    assert_eq!(butters[1], away);
}

#[test]
fn release_after_a_short_charge_does_not_parry() {
    let mut p = middle();
    let mut input = idle_input(Vec2::new(525_000, 425_000));
    input.attack_down = true;
    let under = Butter::new(Vec2::new(450_000, 450_000), Vec2::new(425_000, 425_000));
    let mut butters = vec![under];
    p.step(&input, 16, &mut butters, 0, Instant::now());
    input.attack_down = false;
    input.attack_released = true;
    p.step(&input, 16, &mut butters, 200, Instant::now());
    assert!(p.charge_timer.is_none());
    assert_eq!(p.current_attack_animation, 2);
    assert_eq!(butters, vec![under]);
}

#[test]
fn release_without_a_charge_only_swings() {
    let mut p = middle();
    let mut input = idle_input(Vec2::new(525_000, 425_000));
    input.attack_released = true;
    let under = Butter::new(Vec2::new(450_000, 450_000), Vec2::new(425_000, 425_000));
    let mut butters = vec![under];
    p.step(&input, 16, &mut butters, 5_000, Instant::now());
    assert_eq!(p.current_attack_animation, 2);
    assert_eq!(butters, vec![under]);
}

#[test]
fn swing_comes_to_rest_when_its_sheet_is_done() {
    let mut p = middle();
    let mut butters: Vec<Butter> = Vec::new();
    let mut input = idle_input(Vec2::new(525_000, 425_000));
    input.attack_released = true;
    p.step(&input, 16, &mut butters, 0, Instant::now());
    assert_eq!(p.current_attack_animation, 2);
    input.attack_released = false;
    let mut ticks = 0;
    while p.current_attack_animation == 2 {
        p.step(&input, 100, &mut butters, 0, Instant::now());
        ticks += 1;
        assert!(ticks < 100);
    }
    assert_eq!(p.current_attack_animation, 0);
    // three frame changes in five ticks, then one tick to notice
    assert_eq!(ticks, 6);
    // the sheet that was left has started over
    assert_eq!(p.attack_animations[2].current_frame, 0);
}

#[test]
fn charge_attack_spares_what_was_sent_back_before() {
    let mut p = middle();
    p.weapon_pos = Vec2::new(440_000, 400_000);
    let mut sent = Butter::new(Vec2::new(450_000, 450_000), Vec2::new(425_000, 425_000));
    sent.change_target(Vec2::new(0, 0), 1_000);
    assert_eq!(sent.damage, 47_604);
    let fresh = Butter::new(Vec2::new(515_000, 520_000), Vec2::new(425_000, 425_000));
    let outside = Butter::new(Vec2::new(515_001, 520_000), Vec2::new(425_000, 425_000));
    let mut butters = vec![sent, fresh, outside];
    p.charge_attack(5_000, &mut butters, Vec2::new(600_000, 520_000));
    assert_eq!(butters[0], sent);
    assert!(butters[1].is_reflected());
    assert_eq!(butters[1].damage, 64_943);
    assert_eq!(butters[1].velocity, Vec2::new(-100_000, 0));
    assert_eq!(butters[2], outside);
}

#[test]
fn update_reads_the_clock_itself() {
    let mut p = middle();
    let mut butters: Vec<Butter> = Vec::new();
    let mut input = idle_input(Vec2::new(525_000, 425_000));
    input.attack_down = true;
    input.down = true;
    p.update(&input, 1_000, &mut butters);
    assert!(p.charge_timer.is_some());
    assert_eq!(p.pos, Vec2::new(400_000, 440_000));
    input.attack_down = false;
    input.attack_released = true;
    p.update(&input, 1_000, &mut butters);
    assert!(p.charge_timer.is_none());
    assert_eq!(p.current_attack_animation, 2);
}

use butter_biscuit::waves::{get_enemies_to_spawn, get_spawn_timer, MAX_WAVE};

#[test]
fn first_wave_brings_four() {
    assert_eq!(get_enemies_to_spawn(1), 4);
}

#[test]
fn first_eleven_waves_follow_the_rounded_power() {
    let expected: [u32; 11] = [4, 9, 14, 19, 29, 34, 39, 49, 54, 59, 69];
    for wave in 1..=11u32 {
        assert_eq!(get_enemies_to_spawn(wave), expected[(wave - 1) as usize]);
    }
}

#[test]
fn eleventh_wave_is_the_boundary() {
    // 10^1.1 is 12.589..., which rounds to 13.
    assert_eq!(get_enemies_to_spawn(11), 13 * 5 + 4);
    // 11^1.8 is 74.9..., which is cut to 74.
    assert_eq!(get_enemies_to_spawn(12), 74 + 4);
    assert!(get_enemies_to_spawn(11) <= get_enemies_to_spawn(12));
}

#[test]
fn later_waves_follow_the_floored_power() {
    assert_eq!(get_enemies_to_spawn(13), 87 + 4);
    // 32^1.8 is 512 exactly.
    assert_eq!(get_enemies_to_spawn(33), 512 + 4);
    assert_eq!(get_enemies_to_spawn(101), 3_981 + 4);
    assert_eq!(get_enemies_to_spawn(19_113), 50_857_036 + 4);
    assert_eq!(MAX_WAVE, 224_722);
    assert_eq!(get_enemies_to_spawn(MAX_WAVE), 4_294_954_682 + 4);
}

#[test]
fn waves_never_shrink() {
    let mut last = get_enemies_to_spawn(1);
    for wave in 2..=3_000u32 {
        let count = get_enemies_to_spawn(wave);
        assert!(count >= last);
        last = count;
    }
}

#[test]
fn spawn_interval_starts_at_ten_seconds() {
    assert_eq!(get_spawn_timer(1), 10_000);
    assert_eq!(get_spawn_timer(2), 8_340);
    assert_eq!(get_spawn_timer(3), 6_680);
    assert_eq!(get_spawn_timer(6), 1_700);
}

#[test]
fn spawn_interval_has_a_floor() {
    assert_eq!(get_spawn_timer(7), 300);
    assert_eq!(get_spawn_timer(8), 300);
    assert_eq!(get_spawn_timer(1_000), 300);
    assert_eq!(get_spawn_timer(u32::MAX), 300);
    for wave in 1..=50u32 {
        assert!(get_spawn_timer(wave) >= 300);
    }
}

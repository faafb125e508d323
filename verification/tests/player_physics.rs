use vibe_game::drawable::Drawable;
use vibe_game::geometry::Vector2;
use vibe_game::player::{jump_velocity, Player};

const GROUND: i64 = 490_000;
const JUMP_HEIGHT: u32 = 200_000;
const MAX_CHARGE: u32 = 500_000;
const GRAVITY: u32 = 1_200_000;

fn fresh() -> Player {
    Player::new(Vector2::new(400_000, GROUND), Vector2::new(40_000, 60_000))
}

fn frame(player: &mut Player, dt: u32, held: bool) {
    player.update(dt, GROUND, JUMP_HEIGHT, MAX_CHARGE, GRAVITY, held);
}

#[test]
fn new_player_is_at_rest() {
    let p = fresh();
    assert_eq!(p.position, Vector2::new(400_000, GROUND));
    assert_eq!(p.size, Vector2::new(40_000, 60_000));
    assert_eq!(p.velocity_y, 0);
    assert!(!p.is_jumping);
    assert!(!p.is_charging_jump);
    assert_eq!(p.jump_charge_time, 0);
    assert_eq!(p.get_position(), (400_000, GROUND));
    assert_eq!(p.get_size(), (40_000, 60_000));
    assert_eq!(p.get_layer(), 2);
}

#[test]
fn half_charge_gives_the_expected_velocity() {
    let v = jump_velocity(GRAVITY, JUMP_HEIGHT, 250_000, MAX_CHARGE);
    assert_eq!(v, -489_897);
    let pixels_per_second = v as f64 / 1000.0;
    assert!((pixels_per_second - (-489.9)).abs() <= 0.1);
}

#[test]
fn no_charge_gives_no_velocity() {
    assert_eq!(jump_velocity(GRAVITY, JUMP_HEIGHT, 0, MAX_CHARGE), 0);
    assert_eq!(jump_velocity(0, JUMP_HEIGHT, 250_000, MAX_CHARGE), 0);
    assert_eq!(jump_velocity(GRAVITY, 0, 250_000, MAX_CHARGE), 0);
}

#[test]
fn full_charge_reaches_the_jump_height() {
    let v = jump_velocity(GRAVITY, JUMP_HEIGHT, MAX_CHARGE, MAX_CHARGE);
    assert_eq!(v, -692_820);
    let speed = (-v) as i128;
    let energy = 2 * (GRAVITY as i128) * (JUMP_HEIGHT as i128);
    assert!(speed * speed <= energy);
    assert!(energy < (speed + 1) * (speed + 1));
    // the height at which that speed is used up, in pixels
    let apex = (speed * speed) as f64 / (2.0 * GRAVITY as f64) / 1000.0;
    assert!((apex - 200.0).abs() < 0.001);
}

#[test]
fn velocity_follows_the_formula_for_every_charge() {
    let mut charge: u32 = 0;
    while charge <= MAX_CHARGE {
        let v = jump_velocity(GRAVITY, JUMP_HEIGHT, charge, MAX_CHARGE);
        let exact = -(2.0 * 1200.0 * 200.0 * (charge as f64) / (MAX_CHARGE as f64)).sqrt();
        assert!((v as f64 / 1000.0 - exact).abs() <= 0.001);
        charge += 12_500;
    }
}

#[test]
fn velocity_grows_with_the_charge() {
    let mut last = 0;
    let mut charge: u32 = 0;
    while charge <= MAX_CHARGE {
        let v = jump_velocity(GRAVITY, JUMP_HEIGHT, charge, MAX_CHARGE);
        assert!(v <= last);
        last = v;
        charge += 1_000;
    }
}

#[test]
fn velocity_at_the_largest_inputs() {
    let v = jump_velocity(u32::MAX, u32::MAX, u32::MAX, 1);
    let energy = 2 * (u32::MAX as u128) * (u32::MAX as u128) * (u32::MAX as u128);
    let speed = (-v) as u128;
    assert!(speed * speed <= energy);
    assert!(energy < (speed + 1) * (speed + 1));
}

#[test]
fn pressing_on_the_ground_starts_a_charge() {
    let mut p = fresh();
    p.jump_charge_time = 77;
    frame(&mut p, 16_667, true);
    assert!(p.is_charging_jump);
    assert!(!p.is_jumping);
    assert_eq!(p.jump_charge_time, 0);
    assert_eq!(p.position.y, GROUND);
    assert_eq!(p.velocity_y, 0);
}

#[test]
fn holding_adds_to_the_charge_up_to_the_cap() {
    let mut p = fresh();
    frame(&mut p, 16_667, true);
    frame(&mut p, 100_000, true);
    assert_eq!(p.jump_charge_time, 100_000);
    frame(&mut p, 150_000, true);
    assert_eq!(p.jump_charge_time, 250_000);
    frame(&mut p, 249_999, true);
    assert_eq!(p.jump_charge_time, 499_999);
    frame(&mut p, 1, true);
    assert_eq!(p.jump_charge_time, 500_000);
    frame(&mut p, 400_000, true);
    assert_eq!(p.jump_charge_time, 500_000);
    frame(&mut p, u32::MAX, true);
    assert_eq!(p.jump_charge_time, 500_000);
    assert!(p.is_charging_jump);
    assert!(!p.is_jumping);
}

#[test]
fn idle_without_the_button_stays_idle() {
    let mut p = fresh();
    frame(&mut p, 16_667, false);
    assert!(!p.is_charging_jump);
    assert!(!p.is_jumping);
    assert_eq!(p.position, Vector2::new(400_000, GROUND));
    assert_eq!(p.velocity_y, 0);
}

#[test]
fn releasing_launches_the_player() {
    let mut p = fresh();
    frame(&mut p, 10_000, true);
    frame(&mut p, 250_000, true);
    frame(&mut p, 1_000, false);
    assert!(p.is_jumping);
    assert!(!p.is_charging_jump);
    // launch velocity, then one millisecond of gravity
    assert_eq!(p.velocity_y, -489_897 + 1_200);
    // and one millisecond of travel at that velocity, rounded toward zero
    assert_eq!(p.position.y, GROUND - 488);
    assert_eq!(p.position.x, 400_000);
}

#[test]
fn releasing_with_no_charge_lands_at_once() {
    let mut p = fresh();
    frame(&mut p, 10_000, true);
    frame(&mut p, 10_000, false);
    assert!(!p.is_jumping);
    assert!(!p.is_charging_jump);
    assert_eq!(p.position.y, GROUND);
    assert_eq!(p.velocity_y, 0);
}

#[test]
fn releasing_in_a_frame_of_no_time_lands_at_once() {
    let mut p = fresh();
    frame(&mut p, 10_000, true);
    frame(&mut p, 250_000, true);
    frame(&mut p, 0, false);
    assert!(!p.is_jumping);
    assert_eq!(p.position.y, GROUND);
    assert_eq!(p.velocity_y, 0);
}

#[test]
fn the_button_does_nothing_in_the_air() {
    let mut p = fresh();
    frame(&mut p, 10_000, true);
    frame(&mut p, 500_000, true);
    frame(&mut p, 10_000, false);
    assert!(p.is_jumping);
    let charge = p.jump_charge_time;
    frame(&mut p, 10_000, true);
    assert!(p.is_jumping);
    assert!(!p.is_charging_jump);
    assert_eq!(p.jump_charge_time, charge);
}

#[test]
fn gravity_adds_to_the_velocity_each_frame() {
    let mut p = fresh();
    p.position.y = 0;
    p.is_jumping = true;
    p.velocity_y = -100_000;
    frame(&mut p, 10_000, false);
    assert_eq!(p.velocity_y, -100_000 + 12_000);
    assert_eq!(p.position.y, -880);
    frame(&mut p, 10_000, false);
    assert_eq!(p.velocity_y, -100_000 + 24_000);
    assert_eq!(p.position.y, -880 - 760);
}

#[test]
fn a_jump_ends_on_the_ground() {
    let mut p = fresh();
    frame(&mut p, 10_000, true);
    frame(&mut p, 500_000, true);
    frame(&mut p, 10_000, false);
    let mut frames = 0;
    let mut highest = p.position.y;
    while p.is_jumping {
        frame(&mut p, 10_000, false);
        assert!(p.position.y <= GROUND);
        if p.is_jumping {
            assert!(p.position.y < GROUND);
        }
        if p.position.y < highest {
            highest = p.position.y;
        }
        frames += 1;
        assert!(frames < 1_000);
    }
    assert_eq!(p.position.y, GROUND);
    assert_eq!(p.velocity_y, 0);
    // a full charge carries the player about 200 pixels up
    let rise = (GROUND - highest) as f64 / 1000.0;
    assert!(rise > 190.0 && rise <= 200.0);
    // and the flight takes about twice the time that gravity needs to use
    // up the launch speed
    let seconds = frames as f64 * 0.01;
    assert!((seconds - 2.0 * 692.82 / 1200.0).abs() < 0.05);
}

#[test]
fn the_player_is_never_below_the_ground() {
    let mut p = fresh();
    let pattern = [true, true, true, false, false, true, false, true, true, false];
    let steps = [16_667u32, 5_000, 250_000, 1, 16_667, 33_333, 100_000, 0, 700_000, 16_667];
    for round in 0..200 {
        let held = pattern[round % pattern.len()];
        let dt = steps[(round * 7) % steps.len()];
        frame(&mut p, dt, held);
        assert!(p.position.y <= GROUND);
        if p.position.y == GROUND {
            assert!(!p.is_jumping);
        }
        if p.is_jumping {
            assert!(p.position.y < GROUND);
        }
        assert!(!(p.is_jumping && p.is_charging_jump));
        assert_eq!(p.position.x, 400_000);
    }
}

#[test]
fn a_long_frame_in_the_air_lands() {
    let mut p = fresh();
    p.position.y = -1_000_000;
    p.is_jumping = true;
    frame(&mut p, u32::MAX, false);
    assert!(!p.is_jumping);
    assert_eq!(p.position.y, GROUND);
    assert_eq!(p.velocity_y, 0);
}

#[test]
fn velocity_and_height_stop_at_the_ends_of_their_range() {
    let mut p = fresh();
    p.position.y = i64::MIN;
    p.is_jumping = true;
    p.velocity_y = i64::MIN;
    p.update(1_000_000, i64::MAX, JUMP_HEIGHT, MAX_CHARGE, 0, false);
    assert_eq!(p.velocity_y, i64::MIN);
    assert_eq!(p.position.y, i64::MIN);
    assert!(p.is_jumping);

    let mut q = fresh();
    q.position.y = 0;
    q.is_jumping = true;
    q.velocity_y = i64::MAX;
    q.update(1_000_000, i64::MAX, JUMP_HEIGHT, MAX_CHARGE, u32::MAX, false);
    // the velocity stops at the top of its range, the height reaches the
    // ground line there
    assert_eq!(q.position.y, i64::MAX);
    assert_eq!(q.velocity_y, 0);
    assert!(!q.is_jumping);
}

#[test]
fn a_player_above_the_ground_stays_put_until_it_jumps() {
    let mut p = Player::new(Vector2::new(0, 100_000), Vector2::new(40_000, 60_000));
    frame(&mut p, 16_667, false);
    assert_eq!(p.position.y, 100_000);
    assert!(!p.is_jumping);
}

fn highest_rise(charge: u32, dt: u32) -> i64 {
    let mut p = fresh();
    frame(&mut p, dt, true);
    p.jump_charge_time = charge;
    frame(&mut p, dt, false);
    let mut highest = GROUND - p.position.y;
    let mut frames = 0;
    while p.is_jumping {
        frame(&mut p, dt, false);
        let height = GROUND - p.position.y;
        assert!(height >= 0);
        if height > highest {
            highest = height;
        }
        frames += 1;
        assert!(frames < 1_000_000);
    }
    highest
}

#[test]
fn a_jump_never_rises_above_the_jump_height() {
    for dt in [2_000u32, 5_000, 10_000, 16_667, 33_333, 100_000, 250_000] {
        for charge in [0u32, 1, 125_000, 250_000, 499_999, 500_000] {
            let rise = highest_rise(charge, dt);
            assert!(rise <= JUMP_HEIGHT as i64);
            // no higher than the share of the jump height that was charged
            assert!(rise as i128 * MAX_CHARGE as i128 <= JUMP_HEIGHT as i128 * charge as i128);
        }
    }
}

#[test]
fn short_frames_bring_a_full_jump_close_to_the_jump_height() {
    let rise = highest_rise(MAX_CHARGE, 2_000);
    assert!(rise > 198_000 && rise <= 200_000);
    let coarse = highest_rise(MAX_CHARGE, 100_000);
    assert!(coarse < rise);
}

#[test]
fn a_pull_too_weak_to_count_leaves_the_speed_as_it_is() {
    // a gravity of one unit per second squared pulls less than one unit per
    // second in a millisecond: rounded toward zero, nothing
    let mut p = fresh();
    p.update(1_000, GROUND, 500_000, MAX_CHARGE, 1, true);
    p.jump_charge_time = MAX_CHARGE;
    p.update(1_000, GROUND, 500_000, MAX_CHARGE, 1, false);
    assert!(p.is_jumping);
    assert_eq!(p.velocity_y, -1_000);
    assert_eq!(p.position.y, GROUND - 1);
    for _ in 0..600_000 {
        p.update(1_000, GROUND, 500_000, MAX_CHARGE, 1, false);
    }
    assert_eq!(p.velocity_y, -1_000);
    assert_eq!(p.position.y, GROUND - 600_001);
    // in frames of a second the same pull counts, and the jump ends
    let mut q = fresh();
    q.update(1_000_000, GROUND, 500_000, MAX_CHARGE, 1, true);
    q.jump_charge_time = MAX_CHARGE;
    q.update(1_000_000, GROUND, 500_000, MAX_CHARGE, 1, false);
    let mut frames = 0;
    while q.is_jumping {
        q.update(1_000_000, GROUND, 500_000, MAX_CHARGE, 1, false);
        assert!(GROUND - q.position.y <= 500_000);
        frames += 1;
        assert!(frames < 10_000);
    }
    assert_eq!(q.position.y, GROUND);
}

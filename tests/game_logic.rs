use astroblasto::{
    advance_bullet, aim_direction, direction_step, fire_edge, floor_sqrt, fps_text,
    decimal_string, key_direction, player_movement, screen_to_world_coords, shot_count_text, shot_velocity,
    world_to_screen_coords, wrap_position, Bullet, FrameError, FrameInput, Game, Keys, MousePos,
    Point, COORD_LIMIT,
};

fn pt(x: i64, y: i64) -> Point {
    Point { x, y }
}

fn keys(up: bool, down: bool, left: bool, right: bool) -> Keys {
    Keys { up, down, left, right }
}

fn input(dt_ms: u32, k: Keys, pointer: Point, button_events: Vec<bool>) -> FrameInput {
    FrameInput { dt_ms, keys: k, pointer, button_events }
}

#[test]
fn world_screen_round_trip() {
    let p = pt(1234, -5678);
    let s = world_to_screen_coords(800, 600, p);
    assert_eq!(s, pt(401_234, 294_322));
    assert_eq!(screen_to_world_coords(800, 600, s), p);
    let odd = world_to_screen_coords(801, 601, pt(0, 0));
    assert_eq!(odd, pt(400_500, 300_500));
    assert_eq!(screen_to_world_coords(801, 601, odd), pt(0, 0));
}

#[test]
fn pointer_scenario_aims_along_x() {
    let world = screen_to_world_coords(800, 600, pt(500_000, 300_000));
    assert_eq!(world, pt(100_000, 0));
    let dir = aim_direction(pt(0, 0), world);
    assert_eq!(dir, pt(100_000, 0));
    let angle = (dir.y as f64).atan2(dir.x as f64);
    assert!(angle.abs() < 1e-12);
}

#[test]
fn opposite_keys_cancel() {
    assert_eq!(key_direction(keys(true, true, false, false)), pt(0, 0));
    assert_eq!(key_direction(keys(false, false, true, true)), pt(0, 0));
    assert_eq!(key_direction(keys(true, true, true, true)), pt(0, 0));
    assert_eq!(key_direction(keys(true, true, false, true)), pt(1, 0));
    assert_eq!(player_movement(pt(7, 9), keys(true, true, true, true), 16), pt(7, 9));
}

#[test]
fn single_key_moves_full_distance() {
    assert_eq!(key_direction(keys(true, false, false, false)), pt(0, 1));
    assert_eq!(key_direction(keys(false, true, false, false)), pt(0, -1));
    assert_eq!(key_direction(keys(false, false, true, false)), pt(-1, 0));
    assert_eq!(player_movement(pt(0, 0), keys(false, false, false, true), 16), pt(6_400, 0));
    assert_eq!(direction_step(pt(0, -1), 6_400), pt(0, -6_400));
}

#[test]
fn diagonal_move_is_normalised() {
    let d: i64 = 400 * 16;
    let s = player_movement(pt(0, 0), keys(true, false, false, true), 16);
    assert_eq!(s, pt(4_525, 4_525));
    assert!((2 * s.x - 1) * (2 * s.x - 1) <= 2 * d * d);
    assert!(2 * d * d < (2 * s.x + 1) * (2 * s.x + 1));
    let m = ((s.x * s.x + s.y * s.y) as f64).sqrt();
    assert!((m - d as f64).abs() <= 1.0);
    assert_eq!(direction_step(pt(-1, -1), 1_000), pt(-707, -707));
    assert_eq!(direction_step(pt(1, 1), 0), pt(0, 0));
    assert_eq!(direction_step(pt(1, -1), 1), pt(1, -1));
    assert_eq!(direction_step(pt(1, 1), 2), pt(1, 1));
}

#[test]
fn diagonal_second_matches_axis_speed() {
    let s = player_movement(pt(0, 0), keys(true, false, false, true), 1_000);
    assert_eq!(s, pt(282_843, 282_843));
    let px = s.x as f64 / 1000.0;
    let py = s.y as f64 / 1000.0;
    assert!((px - 282.8427).abs() < 1e-3);
    assert!(((px * px + py * py).sqrt() - 400.0).abs() <= 1e-3);
    let single = player_movement(pt(0, 0), keys(true, false, false, false), 1_000);
    assert_eq!(single, pt(0, 400_000));
}

#[test]
fn degenerate_aim_is_zero() {
    let p = pt(12_345, -678);
    let dir = aim_direction(p, p);
    assert_eq!(dir, pt(0, 0));
    assert_eq!((dir.y as f64).atan2(dir.x as f64), 0.0);
    assert_eq!(shot_velocity(p, p), pt(0, 0));
}

#[test]
fn wrap_moves_to_opposite_edge() {
    assert_eq!(wrap_position(pt(500_000, 0), 800, 600), pt(-300_000, 0));
    assert_eq!(wrap_position(pt(-500_000, 0), 800, 600), pt(300_000, 0));
    assert_eq!(wrap_position(pt(0, 350_000), 800, 600), pt(0, -250_000));
    assert_eq!(wrap_position(pt(0, -300_001), 800, 600), pt(0, 299_999));
    assert_eq!(wrap_position(pt(400_000, -300_000), 800, 600), pt(400_000, -300_000));
    assert_eq!(wrap_position(pt(800_000, -800_000), 800, 600), pt(0, -200_000));
}

#[test]
fn wrap_lands_inside_window() {
    for x in [-800_000i64, -400_001, -1, 0, 399_999, 400_001, 800_000] {
        let w = wrap_position(pt(x, 0), 800, 600);
        assert!(-400_000 <= w.x && w.x <= 400_000);
    }
    let far = wrap_position(pt(2_000_000, 0), 800, 600);
    assert_eq!(far, pt(1_200_000, 0));
}

#[test]
fn floor_sqrt_values() {
    assert_eq!(floor_sqrt(0), 0);
    assert_eq!(floor_sqrt(1), 1);
    assert_eq!(floor_sqrt(15), 3);
    assert_eq!(floor_sqrt(16), 4);
    assert_eq!(floor_sqrt(1u128 << 124), 1u64 << 62);
    assert_eq!(floor_sqrt((1u128 << 124) - 1), (1u64 << 62) - 1);
}

#[test]
fn shot_velocity_has_bullet_speed() {
    assert_eq!(shot_velocity(pt(0, 0), pt(3_000, 4_000)), pt(300, 400));
    assert_eq!(shot_velocity(pt(0, 0), pt(-3_000, 4_000)), pt(-300, 400));
    assert_eq!(shot_velocity(pt(1_000, 1_000), pt(1_000, -9_000)), pt(0, -500));
    assert_eq!(shot_velocity(pt(0, 0), pt(1, 1)), pt(353, 353));
    let v = shot_velocity(pt(0, 0), pt(1, 2));
    assert_eq!(v, pt(223, 447));
    assert!(v.x * v.x + v.y * v.y <= 500 * 500);
}

#[test]
fn bullet_advances_with_time() {
    let b = Bullet { position: pt(10, -10), velocity: pt(300, -400) };
    let r = advance_bullet(b, 10);
    assert_eq!(r.position, pt(3_010, -4_010));
    assert_eq!(r.velocity, pt(300, -400));
}

#[test]
fn fire_edge_fires_on_rising_edge_only() {
    assert_eq!(fire_edge(false, &vec![true]), (true, true));
    assert_eq!(fire_edge(true, &vec![true]), (false, true));
    assert_eq!(fire_edge(false, &vec![]), (false, false));
    assert_eq!(fire_edge(true, &vec![]), (false, true));
    assert_eq!(fire_edge(true, &vec![false]), (false, false));
    assert_eq!(fire_edge(true, &vec![false, true]), (true, true));
    assert_eq!(fire_edge(false, &vec![true, false, true]), (true, true));
}

#[test]
fn two_presses_in_one_frame_fire_once() {
    let mut g = Game::new(800, 600);
    let r = g.frame(&input(16, keys(false, false, false, false), pt(500_000, 300_000), vec![
        true, false, true,
    ]));
    assert_eq!(r, Ok(()));
    assert_eq!(g.shots(), 1);
    assert!(g.fire_held);
    assert_eq!(g.bullets[0].velocity, pt(500, 0));
    assert_eq!(g.bullets[0].position, pt(8_000, 0));
    let r = g.frame(&input(16, keys(false, false, false, false), pt(500_000, 300_000), vec![]));
    assert_eq!(r, Ok(()));
    assert_eq!(g.shots(), 1);
    assert_eq!(g.bullets[0].position, pt(16_000, 0));
    let r = g.frame(&input(16, keys(false, false, false, false), pt(0, 0), vec![false, true]));
    assert_eq!(r, Ok(()));
    assert_eq!(g.shots(), 2);
}

#[test]
fn frame_moves_and_wraps_player() {
    let mut g = Game::new(800, 600);
    assert_eq!(g.player, pt(0, 0));
    let r = g.frame(&input(10, keys(false, false, false, true), pt(0, 0), vec![]));
    assert_eq!(r, Ok(()));
    assert_eq!(g.player, pt(4_000, 0));
    g.player = pt(398_000, 0);
    let r = g.frame(&input(10, keys(false, false, false, true), pt(0, 0), vec![]));
    assert_eq!(r, Ok(()));
    assert_eq!(g.player, pt(-398_000, 0));
}

#[test]
fn frame_refuses_pointer_out_of_range() {
    let mut g = Game::new(800, 600);
    let r = g.frame(&input(10, keys(true, false, false, false), pt(COORD_LIMIT + 1, 0), vec![true]));
    assert_eq!(r, Err(FrameError::OutOfRange));
    assert_eq!(g.player, pt(0, 0));
    assert_eq!(g.shots(), 0);
    assert!(!g.fire_held);
}

#[test]
fn frame_refuses_bullet_leaving_world() {
    let mut g = Game::new(0, 0);
    g.bullets.push(Bullet { position: pt(COORD_LIMIT - 10, 0), velocity: pt(500, 0) });
    let r = g.frame(&input(1, keys(false, false, false, false), pt(0, 0), vec![]));
    assert_eq!(r, Err(FrameError::OutOfRange));
    assert_eq!(g.bullets[0].position, pt(COORD_LIMIT - 10, 0));
}

#[test]
fn resize_keeps_state() {
    let mut g = Game::new(800, 600);
    g.resize(1024, 768);
    assert_eq!((g.width, g.height), (1024, 768));
    assert_eq!(g.player, pt(0, 0));
}

#[test]
fn decimal_numerals() {
    assert_eq!(decimal_string(0), "0");
    assert_eq!(decimal_string(7), "7");
    assert_eq!(decimal_string(10), "10");
    assert_eq!(decimal_string(1_234_567_890), "1234567890");
    assert_eq!(decimal_string(u64::MAX), "18446744073709551615");
}

#[test]
fn hud_texts() {
    assert_eq!(shot_count_text(0), "Shot count: 0");
    assert_eq!(shot_count_text(42), "Shot count: 42");
    assert_eq!(fps_text(6_012), "FPS: 60.12");
    assert_eq!(fps_text(6_005), "FPS: 60.05");
    assert_eq!(fps_text(0), "FPS: 0.00");
    assert_eq!(fps_text(14_450), "FPS: 144.50");
}

#[test]
fn mouse_pos_last_move_wins() {
    let mut m = MousePos::new();
    assert_eq!(m.pos, pt(0, 0));
    m.update(&vec![]);
    assert_eq!(m.pos, pt(0, 0));
    m.update(&vec![pt(1, 2), pt(3, 4)]);
    assert_eq!(m.pos, pt(3, 4));
    m.update(&vec![]);
    assert_eq!(m.pos, pt(3, 4));
}

use pong::geometry::Vec2;
use pong::state::{move_racket, resolve_paddle, resolve_walls, KeysHeld, MainState};

const NO_KEYS: KeysHeld = KeysHeld {
    player_1_up: false,
    player_1_down: false,
    player_2_up: false,
    player_2_down: false,
};

#[test]
fn new_state_is_centred_with_zero_scores() {
    let s = MainState::new_with_signs(800, 600, true, false);
    assert_eq!(s.player_1_pos, Vec2 { x: 50, y: 300 });
    assert_eq!(s.player_2_pos, Vec2 { x: 750, y: 300 });
    assert_eq!(s.ball_pos, Vec2 { x: 400, y: 300 });
    assert_eq!(s.ball_vel, Vec2 { x: 450, y: -450 });
    assert_eq!(s.player_1_score, 0);
    assert_eq!(s.player_2_score, 0);
}

#[test]
fn new_state_velocity_is_a_diagonal_of_ball_speed() {
    let s = MainState::new(800, 600);
    assert!(s.ball_vel.x == 450 || s.ball_vel.x == -450);
    assert!(s.ball_vel.y == 450 || s.ball_vel.y == -450);
    assert_eq!(s.ball_pos, Vec2 { x: 400, y: 300 });
}

#[test]
fn racket_moves_up_by_speed_times_dt() {
    // 0.1 s at 500 units/s moves the centre 50 units up.
    let mut pos = Vec2 { x: 50, y: 300 };
    move_racket(&mut pos, true, -1, 100, 600);
    assert_eq!(pos, Vec2 { x: 50, y: 250 });
}

#[test]
fn racket_moves_down_by_speed_times_dt() {
    let mut pos = Vec2 { x: 50, y: 300 };
    move_racket(&mut pos, true, 1, 100, 600);
    assert_eq!(pos, Vec2 { x: 50, y: 350 });
}

#[test]
fn racket_ignores_a_released_key() {
    let mut pos = Vec2 { x: 50, y: 300 };
    move_racket(&mut pos, false, -1, 100, 600);
    assert_eq!(pos, Vec2 { x: 50, y: 300 });
}

#[test]
fn racket_is_clamped_at_the_top_edge() {
    let mut pos = Vec2 { x: 50, y: 60 };
    move_racket(&mut pos, true, -1, 100, 600);
    assert_eq!(pos.y, 50);
}

#[test]
fn racket_is_clamped_at_the_bottom_edge() {
    let mut pos = Vec2 { x: 50, y: 540 };
    move_racket(&mut pos, true, 1, 100, 600);
    assert_eq!(pos.y, 550);
}

#[test]
fn opposite_keys_cancel_over_a_frame() {
    // Both keys held: the two dt-scaled deltas cancel away from the edges.
    let mut pos = Vec2 { x: 50, y: 300 };
    move_racket(&mut pos, true, -1, 100, 600);
    move_racket(&mut pos, true, 1, 100, 600);
    assert_eq!(pos.y, 300);
}

#[test]
fn wall_bounce_at_the_top_reflects_downwards() {
    // Top edge above the screen: centre moves to the legal minimum and the
    // vertical velocity flips to positive.
    let mut y: i64 = 5;
    let mut vy: i64 = -100;
    resolve_walls(&mut y, &mut vy, 600);
    assert_eq!(y, 10);
    assert_eq!(vy, 100);
}

#[test]
fn wall_bounce_at_the_bottom_reflects_upwards() {
    let mut y: i64 = 595;
    let mut vy: i64 = 100;
    resolve_walls(&mut y, &mut vy, 600);
    assert_eq!(y, 590);
    assert_eq!(vy, -100);
}

#[test]
fn wall_bounce_away_from_walls_is_a_noop() {
    let mut y: i64 = 300;
    let mut vy: i64 = -450;
    resolve_walls(&mut y, &mut vy, 600);
    assert_eq!(y, 300);
    assert_eq!(vy, -450);
}

#[test]
fn left_paddle_bounce_forces_rightward_motion() {
    let ball = Vec2 { x: 55, y: 300 };
    let racket = Vec2 { x: 50, y: 300 };
    let mut vx: i64 = -450;
    resolve_paddle(&ball, &racket, &mut vx, true);
    assert_eq!(vx, 450);
}

#[test]
fn right_paddle_bounce_forces_leftward_motion() {
    let ball = Vec2 { x: 745, y: 300 };
    let racket = Vec2 { x: 750, y: 300 };
    let mut vx: i64 = 450;
    resolve_paddle(&ball, &racket, &mut vx, false);
    assert_eq!(vx, -450);
}

#[test]
fn paddle_bounce_misses_a_distant_ball() {
    let ball = Vec2 { x: 400, y: 300 };
    let racket = Vec2 { x: 50, y: 300 };
    let mut vx: i64 = -450;
    resolve_paddle(&ball, &racket, &mut vx, true);
    assert_eq!(vx, -450);
}

#[test]
fn paddle_bounce_is_idempotent() {
    // Re-resolving an already corrected velocity changes nothing further.
    let ball = Vec2 { x: 55, y: 300 };
    let racket = Vec2 { x: 50, y: 300 };
    let mut vx: i64 = -450;
    resolve_paddle(&ball, &racket, &mut vx, true);
    let once = vx;
    resolve_paddle(&ball, &racket, &mut vx, true);
    assert_eq!(vx, once);
}

#[test]
fn bounces_preserve_the_squared_speed() {
    let mut y: i64 = 5;
    let mut vy: i64 = -100;
    let vx: i64 = 37;
    let before = vx * vx + vy * vy;
    resolve_walls(&mut y, &mut vy, 600);
    assert_eq!(vx * vx + vy * vy, before);

    let ball = Vec2 { x: 55, y: 300 };
    let racket = Vec2 { x: 50, y: 300 };
    let mut hx: i64 = -450;
    let hy: i64 = 450;
    let before_h = hx * hx + hy * hy;
    resolve_paddle(&ball, &racket, &mut hx, true);
    assert_eq!(hx * hx + hy * hy, before_h);
}

#[test]
fn goal_on_the_left_scores_for_the_right_player() {
    // Ball on the left edge: the right player gains 10 points and the ball
    // resets to the screen centre.
    let mut s = MainState::new_with_signs(800, 600, true, true);
    s.ball_pos = Vec2 { x: 0, y: 300 };
    s.ball_vel = Vec2 { x: -450, y: 450 };
    s.update_with_signs(0, 800, 600, NO_KEYS, false, true);
    assert_eq!(s.player_2_score, 10);
    assert_eq!(s.player_1_score, 0);
    assert_eq!(s.ball_pos, Vec2 { x: 400, y: 300 });
    assert_eq!(s.ball_vel, Vec2 { x: -450, y: 450 });
}

#[test]
fn goal_on_the_right_scores_for_the_left_player() {
    let mut s = MainState::new_with_signs(800, 600, true, true);
    s.ball_pos = Vec2 { x: 800, y: 300 };
    s.update_with_signs(0, 800, 600, NO_KEYS, false, false);
    assert_eq!(s.player_1_score, 10);
    assert_eq!(s.player_2_score, 0);
    assert_eq!(s.ball_pos, Vec2 { x: 400, y: 300 });
    assert_eq!(s.ball_vel, Vec2 { x: -450, y: -450 });
}

#[test]
fn quiet_frame_only_advances_the_ball() {
    // 16 ms at 450 units/s is 7 whole units; nothing else happens mid-field.
    let mut s = MainState::new_with_signs(800, 600, true, false);
    s.update_with_signs(16, 800, 600, NO_KEYS, true, true);
    assert_eq!(s.ball_pos, Vec2 { x: 407, y: 293 });
    assert_eq!(s.ball_vel, Vec2 { x: 450, y: -450 });
    assert_eq!(s.player_1_pos, Vec2 { x: 50, y: 300 });
    assert_eq!(s.player_2_pos, Vec2 { x: 750, y: 300 });
    assert_eq!(s.player_1_score, 0);
    assert_eq!(s.player_2_score, 0);
}

#[test]
fn randomized_update_keeps_scores_and_speed_sane() {
    let mut s = MainState::new(800, 600);
    for _ in 0..100 {
        let keys = KeysHeld {
            player_1_up: true,
            player_1_down: false,
            player_2_up: false,
            player_2_down: true,
        };
        s.update(16, 800, 600, keys);
        assert!(s.ball_vel.x == 450 || s.ball_vel.x == -450);
        assert!(s.ball_vel.y == 450 || s.ball_vel.y == -450);
        assert!(s.player_1_pos.y >= 50 && s.player_1_pos.y <= 550);
        assert!(s.player_2_pos.y >= 50 && s.player_2_pos.y <= 550);
        assert!(s.ball_pos.x > 0 && s.ball_pos.x < 800);
        assert!(s.ball_pos.y >= 10 && s.ball_pos.y <= 590);
        assert!(s.player_1_score % 10 == 0 && s.player_2_score % 10 == 0);
    }
}

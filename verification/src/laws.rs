//! Global properties of the simulation, stated and proved once.

use vstd::prelude::*;
use crate::geometry::{Vec2, clamp_spec, abs_val};
use crate::state::{
    MainState, KeysHeld, update_spec, racket_step_y, wall_bounced_y, wall_bounced_vy,
    paddle_bounced_vx, ball_vel_wf, state_ok, frame_ok, RACKET_HEIGHT, RACKET_HEIGHT_HALF,
    BALL_SIZE_HALF,
};

verus! {

/// Squared magnitude of a velocity with the given components.
pub open spec fn speed_sq(vx: int, vy: int) -> int {
    vx * vx + vy * vy
}

/// Clamping keeps a value inside the interval, whatever it was before.
pub proof fn lemma_clamp_in_bounds(v: int, low: int, high: int)
    requires
        low <= high,
    ensures
        low <= clamp_spec(v, low, high) <= high,
{
}

/// After one paddle movement, the paddle centre is no closer than half the
/// paddle's height to either horizontal edge, whatever the inputs were.
pub proof fn lemma_racket_step_in_bounds(
    y: int,
    pressed: bool,
    y_dir: int,
    dt: int,
    screen_h: int,
)
    requires
        RACKET_HEIGHT <= screen_h,
    ensures
        RACKET_HEIGHT_HALF <= racket_step_y(y, pressed, y_dir, dt, screen_h) <= screen_h
            - RACKET_HEIGHT_HALF,
{
}

/// A wall bounce only flips the sign of the vertical velocity component, so
/// the ball's speed (squared magnitude) is unchanged.
pub proof fn lemma_wall_bounce_preserves_speed(y: int, vx: int, vy: int, screen_h: int)
    ensures
        speed_sq(vx, wall_bounced_vy(y, vy, screen_h)) == speed_sq(vx, vy),
{
    assert((-vy) * (-vy) == vy * vy) by (nonlinear_arith);
    assert((-abs_val(vy)) * (-abs_val(vy)) == abs_val(vy) * abs_val(vy)) by (nonlinear_arith);
}

/// A paddle bounce only flips the sign of the horizontal velocity component,
/// so the ball's speed (squared magnitude) is unchanged.
pub proof fn lemma_paddle_bounce_preserves_speed(
    ball: Vec2,
    racket: Vec2,
    vx: int,
    vy: int,
    toward_right: bool,
)
    ensures
        speed_sq(paddle_bounced_vx(ball, racket, vx, toward_right), vy) == speed_sq(vx, vy),
{
    assert((-vx) * (-vx) == vx * vx) by (nonlinear_arith);
    assert((-abs_val(vx)) * (-abs_val(vx)) == abs_val(vx) * abs_val(vx)) by (nonlinear_arith);
}

/// Resolving the same paddle collision twice changes no more than resolving
/// it once: the sign-forcing is stable.
pub proof fn lemma_paddle_bounce_idempotent(ball: Vec2, racket: Vec2, vx: int, toward_right: bool)
    ensures
        paddle_bounced_vx(
            ball,
            racket,
            paddle_bounced_vx(ball, racket, vx, toward_right),
            toward_right,
        ) == paddle_bounced_vx(ball, racket, vx, toward_right),
{
}

/// Resolving the wall collision twice changes no more than resolving it
/// once: a resolved position is already inside the field.
pub proof fn lemma_wall_bounce_idempotent(y: int, vy: int, screen_h: int)
    requires
        2 * BALL_SIZE_HALF <= screen_h,
    ensures
        wall_bounced_y(wall_bounced_y(y, screen_h), screen_h) == wall_bounced_y(y, screen_h),
        wall_bounced_vy(wall_bounced_y(y, screen_h), wall_bounced_vy(y, vy, screen_h), screen_h)
            == wall_bounced_vy(y, vy, screen_h),
{
}

/// A whole simulation step keeps the ball's velocity components at the
/// configured speed: a bounce only flips a sign and a goal reset
/// re-randomizes with the same magnitude.
pub proof fn lemma_update_preserves_ball_vel_wf(
    pre: MainState,
    dt: int,
    screen_w: int,
    screen_h: int,
    keys: KeysHeld,
    sign_x: bool,
    sign_y: bool,
)
    requires
        frame_ok(dt, screen_w, screen_h),
        state_ok(pre),
        ball_vel_wf(pre.ball_vel),
    ensures
        ball_vel_wf(update_spec(pre, dt, screen_w, screen_h, keys, sign_x, sign_y).ball_vel),
{
}

/// A whole simulation step never decreases either score.
pub proof fn lemma_update_scores_monotone(
    pre: MainState,
    dt: int,
    screen_w: int,
    screen_h: int,
    keys: KeysHeld,
    sign_x: bool,
    sign_y: bool,
)
    requires
        frame_ok(dt, screen_w, screen_h),
        state_ok(pre),
    ensures
        update_spec(pre, dt, screen_w, screen_h, keys, sign_x, sign_y).player_1_score
            >= pre.player_1_score,
        update_spec(pre, dt, screen_w, screen_h, keys, sign_x, sign_y).player_2_score
            >= pre.player_2_score,
{
}

} // verus!

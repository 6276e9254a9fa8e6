//! Game entity state and the per-frame simulation step.

use vstd::prelude::*;
use crate::geometry::{
    Vec2, clamp, clamp_spec, scaled_spec, advanced_coord, advance_coord, abs_val, abs_i64, half_of,
    scaled_step, MAX_SPEED, MAX_DT_MS, MAX_COORD, MAX_SCREEN,
};
use crate::rng::{coin_flip, set_signed_vec, signed_component};

verus! {

/// Horizontal gap between a paddle's station and its screen edge.
pub const PADDING: i64 = 40;

/// Paddle speed, in game units per second.
pub const PLAYER_SPEED: i64 = 500;

/// Full paddle height.
pub const RACKET_HEIGHT: i64 = 100;

/// Full paddle width.
pub const RACKET_WIDTH: i64 = 20;

/// Half the paddle width.
pub const RACKET_WIDTH_HALF: i64 = 10;

/// Half the paddle height.
pub const RACKET_HEIGHT_HALF: i64 = 50;

/// Full side length of the square ball.
pub const BALL_SIZE: i64 = 20;

/// Half the ball's side length.
pub const BALL_SIZE_HALF: i64 = 10;

/// Magnitude of each ball velocity component, in game units per second.
pub const BALL_SPEED: i64 = 450;

/// Points awarded for one goal.
pub const POINTS_PER_GOAL: u32 = 10;

/// A snapshot of the four logical key inputs for one frame.
#[derive(Clone, Copy, PartialEq, Eq, Structural, Debug)]
pub struct KeysHeld {
    pub player_1_up: bool,
    pub player_1_down: bool,
    pub player_2_up: bool,
    pub player_2_down: bool,
}

/// The entire mutable state of a running match.
#[derive(Clone, Copy, PartialEq, Eq, Structural, Debug)]
pub struct MainState {
    pub player_1_pos: Vec2,
    pub player_2_pos: Vec2,
    pub ball_pos: Vec2,
    pub ball_vel: Vec2,
    pub player_1_score: u32,
    pub player_2_score: u32,
}

/// Frame inputs the simulation step accepts: a non-negative bounded time
/// delta and positive bounded screen dimensions tall enough for a paddle.
pub open spec fn frame_ok(dt: int, screen_w: int, screen_h: int) -> bool {
    &&& 0 <= dt <= MAX_DT_MS
    &&& 0 < screen_w <= MAX_SCREEN
    &&& RACKET_HEIGHT <= screen_h <= MAX_SCREEN
}

/// Positions and velocities within the magnitudes the arithmetic is sized
/// for.
pub open spec fn coords_ok(s: MainState) -> bool {
    &&& -MAX_COORD <= s.player_1_pos.x <= MAX_COORD
    &&& -MAX_COORD <= s.player_1_pos.y <= MAX_COORD
    &&& -MAX_COORD <= s.player_2_pos.x <= MAX_COORD
    &&& -MAX_COORD <= s.player_2_pos.y <= MAX_COORD
    &&& -MAX_COORD <= s.ball_pos.x <= MAX_COORD
    &&& -MAX_COORD <= s.ball_pos.y <= MAX_COORD
    &&& -MAX_SPEED <= s.ball_vel.x <= MAX_SPEED
    &&& -MAX_SPEED <= s.ball_vel.y <= MAX_SPEED
}

/// Room for one more goal on each counter.
pub open spec fn scores_ok(s: MainState) -> bool {
    &&& s.player_1_score <= u32::MAX - POINTS_PER_GOAL
    &&& s.player_2_score <= u32::MAX - POINTS_PER_GOAL
}

/// States the simulation step accepts.
pub open spec fn state_ok(s: MainState) -> bool {
    coords_ok(s) && scores_ok(s)
}

/// The ball's velocity carries the configured speed as the magnitude of each
/// component.
pub open spec fn ball_vel_wf(v: Vec2) -> bool {
    &&& (v.x == BALL_SPEED || v.x == -BALL_SPEED)
    &&& (v.y == BALL_SPEED || v.y == -BALL_SPEED)
}

/// A paddle centre after one key is evaluated: moved if the key is held, not
/// yet clamped.
pub open spec fn racket_moved_y(y: int, pressed: bool, y_dir: int, dt: int) -> int {
    if pressed {
        y + y_dir * scaled_spec(PLAYER_SPEED as int, dt)
    } else {
        y
    }
}

/// A paddle centre after one key is evaluated and the result is clamped to
/// the vertical play field.
pub open spec fn racket_step_y(y: int, pressed: bool, y_dir: int, dt: int, screen_h: int) -> int {
    clamp_spec(
        racket_moved_y(y, pressed, y_dir, dt),
        RACKET_HEIGHT_HALF as int,
        screen_h - RACKET_HEIGHT_HALF,
    )
}

/// Moves one paddle for one frame: if the key is held, the centre advances by
/// the speed scaled over the elapsed time, in the direction `y_dir`
/// (`-1` = up, `1` = down); the result is clamped so the paddle never leaves
/// the vertical play field.
pub fn move_racket(pos: &mut Vec2, pressed: bool, y_dir: i64, dt_ms: i64, screen_h: i64)
    requires
        y_dir == 1 || y_dir == -1,
        0 <= dt_ms <= MAX_DT_MS,
        RACKET_HEIGHT <= screen_h <= MAX_SCREEN,
        -MAX_COORD <= old(pos).y <= MAX_COORD,
    ensures
        final(pos).x == old(pos).x,
        final(pos).y == racket_step_y(
            old(pos).y as int,
            pressed,
            y_dir as int,
            dt_ms as int,
            screen_h as int,
        ),
        RACKET_HEIGHT_HALF <= final(pos).y <= screen_h - RACKET_HEIGHT_HALF,
{
    if pressed {
        let step = scaled_step(PLAYER_SPEED, dt_ms);
        if y_dir >= 0 {
            pos.y = pos.y + step;
        } else {
            pos.y = pos.y - step;
        }
    }
    clamp(&mut pos.y, RACKET_HEIGHT_HALF, screen_h - RACKET_HEIGHT_HALF);
}

/// The ball centre's vertical coordinate after wall resolution: clamped back
/// into the field if an edge crossed the top or the bottom.
pub open spec fn wall_bounced_y(y: int, screen_h: int) -> int {
    if y < BALL_SIZE_HALF {
        BALL_SIZE_HALF as int
    } else if y > screen_h - BALL_SIZE_HALF {
        screen_h - BALL_SIZE_HALF
    } else {
        y
    }
}

/// The vertical velocity after wall resolution: reflected downwards at the
/// top wall, upwards at the bottom wall, otherwise unchanged.
pub open spec fn wall_bounced_vy(y: int, vy: int, screen_h: int) -> int {
    if y < BALL_SIZE_HALF {
        abs_val(vy)
    } else if y > screen_h - BALL_SIZE_HALF {
        -abs_val(vy)
    } else {
        vy
    }
}

/// Resolves the top/bottom wall collision for one frame: if the ball's top
/// edge is above the screen (or its bottom edge below it), the centre is
/// clamped to the nearest legal value and the vertical velocity is reflected
/// back into the field. Only the sign of the velocity can change.
pub fn resolve_walls(ball_pos_y: &mut i64, ball_vel_y: &mut i64, screen_h: i64)
    requires
        BALL_SIZE <= screen_h <= MAX_SCREEN,
        -MAX_COORD - 1_000_000_000 <= *old(ball_pos_y) <= MAX_COORD + 1_000_000_000,
        i64::MIN < *old(ball_vel_y),
    ensures
        *final(ball_pos_y) == wall_bounced_y(*old(ball_pos_y) as int, screen_h as int),
        *final(ball_vel_y) == wall_bounced_vy(
            *old(ball_pos_y) as int,
            *old(ball_vel_y) as int,
            screen_h as int,
        ),
        BALL_SIZE_HALF <= *final(ball_pos_y) <= screen_h - BALL_SIZE_HALF,
        abs_val(*final(ball_vel_y) as int) == abs_val(*old(ball_vel_y) as int),
{
    if *ball_pos_y < BALL_SIZE_HALF {
        *ball_pos_y = BALL_SIZE_HALF;
        *ball_vel_y = abs_i64(*ball_vel_y);
    } else if *ball_pos_y > screen_h - BALL_SIZE_HALF {
        *ball_pos_y = screen_h - BALL_SIZE_HALF;
        *ball_vel_y = -abs_i64(*ball_vel_y);
    }
}

/// Axis-aligned bounding-box overlap between the ball's square and a
/// paddle's rectangle, both centre-based with half-extents.
pub open spec fn intersects_spec(ball: Vec2, racket: Vec2) -> bool {
    &&& ball.x - BALL_SIZE_HALF <= racket.x + RACKET_WIDTH_HALF
    &&& ball.x + BALL_SIZE_HALF >= racket.x - RACKET_WIDTH_HALF
    &&& ball.y - BALL_SIZE_HALF <= racket.y + RACKET_HEIGHT_HALF
    &&& ball.y + BALL_SIZE_HALF >= racket.y - RACKET_HEIGHT_HALF
}

/// Axis-aligned bounding-box overlap between the ball's square and a
/// paddle's rectangle.
pub fn intersects(ball: &Vec2, racket: &Vec2) -> (r: bool)
    requires
        -MAX_COORD - 1_000_000_000 <= ball.x <= MAX_COORD + 1_000_000_000,
        -MAX_COORD - 1_000_000_000 <= ball.y <= MAX_COORD + 1_000_000_000,
        -MAX_COORD <= racket.x <= MAX_COORD,
        -MAX_COORD <= racket.y <= MAX_COORD,
    ensures
        r == intersects_spec(*ball, *racket),
{
    ball.x - BALL_SIZE_HALF <= racket.x + RACKET_WIDTH_HALF
        && ball.x + BALL_SIZE_HALF >= racket.x - RACKET_WIDTH_HALF
        && ball.y - BALL_SIZE_HALF <= racket.y + RACKET_HEIGHT_HALF
        && ball.y + BALL_SIZE_HALF >= racket.y - RACKET_HEIGHT_HALF
}

/// The horizontal velocity after one ball–paddle resolution: forced away
/// from the paddle on overlap (`toward_right` for the left paddle),
/// otherwise unchanged.
pub open spec fn paddle_bounced_vx(ball: Vec2, racket: Vec2, vx: int, toward_right: bool) -> int {
    if intersects_spec(ball, racket) {
        if toward_right {
            abs_val(vx)
        } else {
            -abs_val(vx)
        }
    } else {
        vx
    }
}

/// Resolves one ball–paddle collision: on overlap the horizontal velocity is
/// forced away from the paddle (rightwards for the left paddle, leftwards for
/// the right one); otherwise nothing changes. Only the sign can change, so
/// re-applying the resolution is idempotent.
pub fn resolve_paddle(ball: &Vec2, racket: &Vec2, ball_vel_x: &mut i64, toward_right: bool)
    requires
        -MAX_COORD - 1_000_000_000 <= ball.x <= MAX_COORD + 1_000_000_000,
        -MAX_COORD - 1_000_000_000 <= ball.y <= MAX_COORD + 1_000_000_000,
        -MAX_COORD <= racket.x <= MAX_COORD,
        -MAX_COORD <= racket.y <= MAX_COORD,
        i64::MIN < *old(ball_vel_x),
    ensures
        *final(ball_vel_x) == paddle_bounced_vx(
            *ball,
            *racket,
            *old(ball_vel_x) as int,
            toward_right,
        ),
        abs_val(*final(ball_vel_x) as int) == abs_val(*old(ball_vel_x) as int),
{
    if intersects(ball, racket) {
        if toward_right {
            *ball_vel_x = abs_i64(*ball_vel_x);
        } else {
            *ball_vel_x = -abs_i64(*ball_vel_x);
        }
    }
}

/// One full simulation step on the abstract state, in the fixed frame order:
/// paddle movement (both keys per paddle), ball advance, goal detection and
/// reset on each edge (the injected signs choose the new diagonal), wall
/// bounce, then the two paddle bounces.
pub open spec fn update_spec(
    pre: MainState,
    dt: int,
    screen_w: int,
    screen_h: int,
    keys: KeysHeld,
    sign_x: bool,
    sign_y: bool,
) -> MainState {
    let p1y = racket_step_y(
        racket_step_y(pre.player_1_pos.y as int, keys.player_1_up, -1, dt, screen_h),
        keys.player_1_down,
        1,
        dt,
        screen_h,
    );
    let p2y = racket_step_y(
        racket_step_y(pre.player_2_pos.y as int, keys.player_2_up, -1, dt, screen_h),
        keys.player_2_down,
        1,
        dt,
        screen_h,
    );
    let bx0 = advanced_coord(pre.ball_pos.x as int, pre.ball_vel.x as int, dt);
    let by0 = advanced_coord(pre.ball_pos.y as int, pre.ball_vel.y as int, dt);
    let goal_left = bx0 <= 0;
    let bx1 = if goal_left { screen_w / 2 } else { bx0 };
    let by1 = if goal_left { screen_h / 2 } else { by0 };
    let vx1 = if goal_left { signed_component(BALL_SPEED as int, sign_x) } else { pre.ball_vel.x as int };
    let vy1 = if goal_left { signed_component(BALL_SPEED as int, sign_y) } else { pre.ball_vel.y as int };
    let score1a = pre.player_1_score as int;
    let score2a = if goal_left { pre.player_2_score + POINTS_PER_GOAL } else { pre.player_2_score as int };
    let goal_right = bx1 >= screen_w;
    let bx2 = if goal_right { screen_w / 2 } else { bx1 };
    let by2 = if goal_right { screen_h / 2 } else { by1 };
    let vx2 = if goal_right { signed_component(BALL_SPEED as int, sign_x) } else { vx1 };
    let vy2 = if goal_right { signed_component(BALL_SPEED as int, sign_y) } else { vy1 };
    let score1b = if goal_right { score1a + POINTS_PER_GOAL } else { score1a };
    let by3 = wall_bounced_y(by2, screen_h);
    let vy3 = wall_bounced_vy(by2, vy2, screen_h);
    let ball2 = Vec2 { x: bx2 as i64, y: by3 as i64 };
    let p1 = Vec2 { x: pre.player_1_pos.x, y: p1y as i64 };
    let p2 = Vec2 { x: pre.player_2_pos.x, y: p2y as i64 };
    let vx3 = paddle_bounced_vx(ball2, p1, vx2, true);
    let vx4 = paddle_bounced_vx(ball2, p2, vx3, false);
    MainState {
        player_1_pos: p1,
        player_2_pos: p2,
        ball_pos: ball2,
        ball_vel: Vec2 { x: vx4 as i64, y: vy3 as i64 },
        player_1_score: score1b as u32,
        player_2_score: score2a as u32,
    }
}

impl MainState {
    /// A fresh match on a `screen_w` by `screen_h` field: paddles at their
    /// horizontal stations and vertically centred, ball centred with the
    /// diagonal velocity chosen by the given signs, both scores zero.
    pub fn new_with_signs(screen_w: i64, screen_h: i64, sign_x: bool, sign_y: bool) -> (s: Self)
        requires
            0 < screen_w <= MAX_SCREEN,
            RACKET_HEIGHT <= screen_h <= MAX_SCREEN,
        ensures
            s.player_1_pos.x == RACKET_WIDTH_HALF + PADDING,
            s.player_1_pos.y == screen_h as int / 2,
            s.player_2_pos.x == screen_w - RACKET_WIDTH_HALF - PADDING,
            s.player_2_pos.y == screen_h as int / 2,
            s.ball_pos.x == screen_w as int / 2,
            s.ball_pos.y == screen_h as int / 2,
            s.ball_vel.x == signed_component(BALL_SPEED as int, sign_x),
            s.ball_vel.y == signed_component(BALL_SPEED as int, sign_y),
            s.player_1_score == 0,
            s.player_2_score == 0,
            state_ok(s),
            ball_vel_wf(s.ball_vel),
    {
        let screen_w_half = half_of(screen_w);
        let screen_h_half = half_of(screen_h);
        let mut ball_vel = Vec2 { x: 0, y: 0 };
        set_signed_vec(&mut ball_vel, BALL_SPEED, BALL_SPEED, sign_x, sign_y);
        MainState {
            player_1_pos: Vec2 { x: RACKET_WIDTH_HALF + PADDING, y: screen_h_half },
            player_2_pos: Vec2 { x: screen_w - RACKET_WIDTH_HALF - PADDING, y: screen_h_half },
            ball_pos: Vec2 { x: screen_w_half, y: screen_h_half },
            ball_vel,
            player_1_score: 0,
            player_2_score: 0,
        }
    }

    /// A fresh match on a `screen_w` by `screen_h` field, the ball's diagonal
    /// drawn from a fair coin per axis.
    pub fn new(screen_w: i64, screen_h: i64) -> (s: Self)
        requires
            0 < screen_w <= MAX_SCREEN,
            RACKET_HEIGHT <= screen_h <= MAX_SCREEN,
        ensures
            s.player_1_pos.x == RACKET_WIDTH_HALF + PADDING,
            s.player_1_pos.y == screen_h as int / 2,
            s.player_2_pos.x == screen_w - RACKET_WIDTH_HALF - PADDING,
            s.player_2_pos.y == screen_h as int / 2,
            s.ball_pos.x == screen_w as int / 2,
            s.ball_pos.y == screen_h as int / 2,
            s.player_1_score == 0,
            s.player_2_score == 0,
            state_ok(s),
            ball_vel_wf(s.ball_vel),
    {
        let sign_x = coin_flip();
        let sign_y = coin_flip();
        Self::new_with_signs(screen_w, screen_h, sign_x, sign_y)
    }

    /// One full simulation step with an injected sign source for a potential
    /// ball reset: paddle movement, ball advance, goal detection and reset,
    /// wall bounce, paddle bounces, exactly as `update_spec` lays them out.
    pub fn update_with_signs(
        &mut self,
        dt_ms: i64,
        screen_w: i64,
        screen_h: i64,
        keys: KeysHeld,
        sign_x: bool,
        sign_y: bool,
    )
        requires
            frame_ok(dt_ms as int, screen_w as int, screen_h as int),
            state_ok(*old(self)),
        ensures
            *final(self) == update_spec(
                *old(self),
                dt_ms as int,
                screen_w as int,
                screen_h as int,
                keys,
                sign_x,
                sign_y,
            ),
            coords_ok(*final(self)),
            old(self).player_1_score <= final(self).player_1_score
                <= old(self).player_1_score + POINTS_PER_GOAL,
            old(self).player_2_score <= final(self).player_2_score
                <= old(self).player_2_score + POINTS_PER_GOAL,
    {
        move_racket(&mut self.player_1_pos, keys.player_1_up, -1, dt_ms, screen_h);
        move_racket(&mut self.player_1_pos, keys.player_1_down, 1, dt_ms, screen_h);
        move_racket(&mut self.player_2_pos, keys.player_2_up, -1, dt_ms, screen_h);
        move_racket(&mut self.player_2_pos, keys.player_2_down, 1, dt_ms, screen_h);
        self.ball_pos.x = advance_coord(self.ball_pos.x, self.ball_vel.x, dt_ms);
        self.ball_pos.y = advance_coord(self.ball_pos.y, self.ball_vel.y, dt_ms);

        if self.ball_pos.x <= 0 {
            self.ball_pos.x = half_of(screen_w);
            self.ball_pos.y = half_of(screen_h);
            set_signed_vec(&mut self.ball_vel, BALL_SPEED, BALL_SPEED, sign_x, sign_y);
            self.player_2_score = self.player_2_score + POINTS_PER_GOAL;
        }
        if self.ball_pos.x >= screen_w {
            self.ball_pos.x = half_of(screen_w);
            self.ball_pos.y = half_of(screen_h);
            set_signed_vec(&mut self.ball_vel, BALL_SPEED, BALL_SPEED, sign_x, sign_y);
            self.player_1_score = self.player_1_score + POINTS_PER_GOAL;
        }
        resolve_walls(&mut self.ball_pos.y, &mut self.ball_vel.y, screen_h);
        resolve_paddle(&self.ball_pos, &self.player_1_pos, &mut self.ball_vel.x, true);
        resolve_paddle(&self.ball_pos, &self.player_2_pos, &mut self.ball_vel.x, false);
    }

    /// One full simulation step, the signs of a potential ball reset drawn
    /// from a fair coin per axis. The scores never decrease, and grow by at
    /// most one goal's worth.
    pub fn update(&mut self, dt_ms: i64, screen_w: i64, screen_h: i64, keys: KeysHeld)
        requires
            frame_ok(dt_ms as int, screen_w as int, screen_h as int),
            state_ok(*old(self)),
        ensures
            exists|sx: bool, sy: bool|
                *final(self) == update_spec(
                    *old(self),
                    dt_ms as int,
                    screen_w as int,
                    screen_h as int,
                    keys,
                    sx,
                    sy,
                ),
            coords_ok(*final(self)),
            old(self).player_1_score <= final(self).player_1_score
                <= old(self).player_1_score + POINTS_PER_GOAL,
            old(self).player_2_score <= final(self).player_2_score
                <= old(self).player_2_score + POINTS_PER_GOAL,
    {
        let sign_x = coin_flip();
        let sign_y = coin_flip();
        self.update_with_signs(dt_ms, screen_w, screen_h, keys, sign_x, sign_y);
    }
}

} // verus!

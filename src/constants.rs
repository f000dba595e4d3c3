//! The fixed geometry and speeds of the arena.
use vstd::prelude::*;

verus! {

/// Vertical speed of a paddle, in pixels per second.
pub const PADDLE_SPEED: i64 = 500;

/// Paddle width, in thousandths of a pixel.
pub const PADDLE_WIDTH: i64 = 20_000;

/// Paddle height, in thousandths of a pixel.
pub const PADDLE_HEIGHT: i64 = 100_000;

/// Ball radius, in thousandths of a pixel.
pub const BALL_RADIUS: i64 = 10_000;

/// Magnitude of the ball's velocity at launch, in pixels per second.
pub const BALL_SPEED: i64 = 250;

/// Arena width, in thousandths of a pixel.
pub const ARENA_WIDTH: i64 = 800_000;

/// Arena height, in thousandths of a pixel.
pub const ARENA_HEIGHT: i64 = 600_000;

/// Gap between a side of the arena and the paddle on that side.
pub const ARENA_PADDING: i64 = 30_000;

/// Thickness of the top and bottom walls.
pub const ARENA_WALL_HEIGHT: i64 = 25_000;

/// Highest vertical position of a paddle's center.
pub const PADDLE_MAX_Y: i64 = 225_000;

/// Lowest vertical position of a paddle's center.
pub const PADDLE_MIN_Y: i64 = -225_000;

/// Highest vertical position of the ball's center between the walls.
pub const BALL_MAX_Y: i64 = 265_000;

/// Lowest vertical position of the ball's center between the walls.
pub const BALL_MIN_Y: i64 = -265_000;

/// Rightmost horizontal position of the ball's center before the right paddle.
pub const BALL_MAX_X: i64 = 340_000;

/// Leftmost horizontal position of the ball's center before the left paddle.
pub const BALL_MIN_X: i64 = -340_000;

/// Horizontal position of the left paddle's center.
pub const LEFT_PADDLE_X: i64 = -360_000;

/// Horizontal position of the right paddle's center.
pub const RIGHT_PADDLE_X: i64 = 360_000;

/// Largest magnitude of the vertical launch velocity, a fifth of the ball speed.
pub const LAUNCH_MAX_VY: i64 = 50;

} // verus!

verus! {

/// The derived constants agree with the dimensions they are derived from.
pub proof fn lemma_derived_constants()
    ensures
        PADDLE_MAX_Y == ARENA_HEIGHT / 2 - PADDLE_HEIGHT / 2 - ARENA_WALL_HEIGHT,
        PADDLE_MIN_Y == -ARENA_HEIGHT / 2 + PADDLE_HEIGHT / 2 + ARENA_WALL_HEIGHT,
        BALL_MAX_Y == ARENA_HEIGHT / 2 - ARENA_WALL_HEIGHT - BALL_RADIUS,
        BALL_MIN_Y == -ARENA_HEIGHT / 2 + ARENA_WALL_HEIGHT + BALL_RADIUS,
        BALL_MAX_X == ARENA_WIDTH / 2 - PADDLE_WIDTH - ARENA_PADDING - BALL_RADIUS,
        BALL_MIN_X == -ARENA_WIDTH / 2 + PADDLE_WIDTH + ARENA_PADDING + BALL_RADIUS,
        LEFT_PADDLE_X == -ARENA_WIDTH / 2 + PADDLE_WIDTH / 2 + ARENA_PADDING,
        RIGHT_PADDLE_X == ARENA_WIDTH / 2 - PADDLE_WIDTH / 2 - ARENA_PADDING,
        LAUNCH_MAX_VY == BALL_SPEED / 5,
{
}

} // verus!

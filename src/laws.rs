//! Properties that hold of the update rules for all inputs.
use vstd::prelude::*;

use crate::components::{Ball, Paddle, PaddleInput};
use crate::constants::{BALL_MAX_Y, BALL_MIN_Y, BALL_SPEED, PADDLE_HEIGHT, PADDLE_MAX_Y, PADDLE_MIN_Y};
use crate::systems::{
    after_destroy, candidate, crossed, deflection, hits_wall, moved_paddle_y, out_of_arena,
    paddle_collided, wall_collided, within_paddle,
};

verus! {

/// Whatever its position and intent, a paddle that moves for any
/// non-negative time ends up between the walls.
pub proof fn lemma_paddle_stays_between_walls(y: int, input: PaddleInput, delta_ms: int)
    requires
        delta_ms >= 0,
    ensures
        PADDLE_MIN_Y <= moved_paddle_y(y, input, delta_ms) <= PADDLE_MAX_Y,
{
}

/// A ball outside the band between the walls is put back inside it with its
/// vertical velocity reversed and its horizontal motion untouched; a ball
/// inside the band is left exactly as it was.
pub proof fn lemma_wall_reflects(b: Ball)
    requires
        b.velocity.y != i64::MIN,
    ensures
        hits_wall(b) ==> BALL_MIN_Y <= wall_collided(b).position.y <= BALL_MAX_Y,
        hits_wall(b) ==> wall_collided(b).velocity.y == -b.velocity.y,
        hits_wall(b) ==> wall_collided(b).position.x == b.position.x,
        hits_wall(b) ==> wall_collided(b).velocity.x == b.velocity.x,
        !hits_wall(b) ==> wall_collided(b) == b,
{
}

/// The ball is removed exactly when it lies strictly outside the arena's
/// horizontal span, which leaves the slot empty for the next launch.
pub proof fn lemma_destroyed_iff_outside(b: Ball)
    ensures
        after_destroy(Some(b)) is None <==> out_of_arena(b),
        !out_of_arena(b) ==> after_destroy(Some(b)) == Some(b),
{
}

/// The paddle rule changes the ball only when it has crossed the threshold
/// on the side of the paddle it travels toward while within that paddle's
/// vertical extent; a ball passing above or below the paddle goes on as it was.
pub proof fn lemma_deflects_only_within_paddle(b: Ball, left: Paddle, right: Paddle)
    ensures
        paddle_collided(b, left, right) != b ==> (candidate(b, left, right) matches Some(p) && crossed(b)
            && within_paddle(b, p)),
        (candidate(b, left, right) matches Some(p) && !within_paddle(b, p)) ==> paddle_collided(b, left, right)
            == b,
        (candidate(b, left, right) matches Some(p) && crossed(b) && within_paddle(b, p) && b.velocity.x
            != i64::MIN) ==> paddle_collided(b, left, right).velocity.x == -b.velocity.x,
{
}

/// The bottom edge of a paddle sends the ball down at full speed, its center
/// sends it straight back, its top edge sends it up at full speed.
pub proof fn lemma_deflection_edges()
    ensures
        deflection(0) == -BALL_SPEED,
        deflection(PADDLE_HEIGHT / 2) == 0,
        deflection(PADDLE_HEIGHT as int) == BALL_SPEED,
{
}

} // verus!

//! The per-frame update rules: input, paddle movement, the ball's life cycle,
//! its movement and its collisions with walls and paddles.
use vstd::arithmetic::div_mod::lemma_div_is_ordered;
use vstd::prelude::*;

use crate::components::{Ball, Control, Game, HumanPaddle, KeyCode, Paddle, PaddleInput, RandomPaddle, Vec2};
use crate::constants::{
    ARENA_WIDTH, BALL_MAX_X, BALL_MAX_Y, BALL_MIN_X, BALL_MIN_Y, BALL_SPEED, LAUNCH_MAX_VY,
    LEFT_PADDLE_X, PADDLE_HEIGHT, PADDLE_MAX_Y, PADDLE_MIN_Y, PADDLE_SPEED, RIGHT_PADDLE_X,
};

verus! {

/// `v` limited to `[lo, hi]`.
pub open spec fn clamp(v: int, lo: int, hi: int) -> int {
    if v < lo {
        lo
    } else if v > hi {
        hi
    } else {
        v
    }
}

/// Net vertical direction of an intent: up counts one, down minus one.
pub open spec fn direction(input: PaddleInput) -> int {
    (if input.up { 1int } else { 0int }) - (if input.down { 1int } else { 0int })
}

/// A paddle's vertical position after `delta_ms` milliseconds of its intent.
pub open spec fn moved_paddle_y(y: int, input: PaddleInput, delta_ms: int) -> int {
    clamp(y + direction(input) * PADDLE_SPEED * delta_ms, PADDLE_MIN_Y as int, PADDLE_MAX_Y as int)
}

proof fn lemma_scaled_direction(d: int, delta_ms: int)
    ensures
        d == 1 ==> d * PADDLE_SPEED * delta_ms == PADDLE_SPEED * delta_ms,
        d == -1 ==> d * PADDLE_SPEED * delta_ms == -(PADDLE_SPEED * delta_ms),
        d == 0 ==> d * PADDLE_SPEED * delta_ms == 0,
{
    assert(d == 1 ==> d * PADDLE_SPEED * delta_ms == PADDLE_SPEED * delta_ms) by (nonlinear_arith);
    assert(d == -1 ==> d * PADDLE_SPEED * delta_ms == -(PADDLE_SPEED * delta_ms)) by (nonlinear_arith);
    assert(d == 0 ==> d * PADDLE_SPEED * delta_ms == 0) by (nonlinear_arith);
}

fn clamp_i128(v: i128, lo: i128, hi: i128) -> (r: i128)
    requires
        lo <= hi,
    ensures
        r == clamp(v as int, lo as int, hi as int),
{
    if v < lo {
        lo
    } else if v > hi {
        hi
    } else {
        v
    }
}

/// Moves one paddle vertically by its intent over `delta_ms` milliseconds,
/// keeping it between the walls.
pub fn move_paddle(paddle: &mut Paddle, delta_ms: u32)
    ensures
        final(paddle).y == moved_paddle_y(old(paddle).y as int, old(paddle).input, delta_ms as int),
        final(paddle).x == old(paddle).x,
        final(paddle).input == old(paddle).input,
        final(paddle).control == old(paddle).control,
{
    let step: i128 = (PADDLE_SPEED as i128) * (delta_ms as i128);
    assert(0 <= step <= 500 * 0xffff_ffff) by (nonlinear_arith)
        requires
            step == 500 * (delta_ms as int),
            delta_ms <= 0xffff_ffff,
    ;
    let shift: i128 = if paddle.input.up && !paddle.input.down {
        assert(direction(paddle.input) == 1);
        proof { lemma_scaled_direction(direction(paddle.input), delta_ms as int); }
        step
    } else if paddle.input.down && !paddle.input.up {
        assert(direction(paddle.input) == -1);
        proof { lemma_scaled_direction(direction(paddle.input), delta_ms as int); }
        -step
    } else {
        assert(direction(paddle.input) == 0);
        proof { lemma_scaled_direction(direction(paddle.input), delta_ms as int); }
        0
    };
    let target: i128 = paddle.y as i128 + shift;
    let y = clamp_i128(target, PADDLE_MIN_Y as i128, PADDLE_MAX_Y as i128);
    paddle.y = y as i64;
}

/// Moves both paddles by their intents over `delta_ms` milliseconds.
pub fn paddle_movement(game: &mut Game, delta_ms: u32)
    ensures
        final(game).left.y == moved_paddle_y(old(game).left.y as int, old(game).left.input, delta_ms as int),
        final(game).right.y == moved_paddle_y(old(game).right.y as int, old(game).right.input, delta_ms as int),
        final(game).left.x == old(game).left.x,
        final(game).right.x == old(game).right.x,
        final(game).left.input == old(game).left.input,
        final(game).right.input == old(game).right.input,
        final(game).left.control == old(game).left.control,
        final(game).right.control == old(game).right.control,
        final(game).ball == old(game).ball,
{
    move_paddle(&mut game.left, delta_ms);
    move_paddle(&mut game.right, delta_ms);
}

/// The ball after moving along its velocity for `delta_ms` milliseconds.
pub open spec fn moved_ball(b: Ball, delta_ms: int) -> Ball {
    Ball {
        position: Vec2 {
            x: (b.position.x + b.velocity.x * delta_ms) as i64,
            y: (b.position.y + b.velocity.y * delta_ms) as i64,
        },
        velocity: b.velocity,
    }
}

/// Moving the ball for `delta_ms` milliseconds keeps both coordinates in `i64`.
pub open spec fn move_fits(b: Ball, delta_ms: int) -> bool {
    &&& i64::MIN <= b.position.x + b.velocity.x * delta_ms <= i64::MAX
    &&& i64::MIN <= b.position.y + b.velocity.y * delta_ms <= i64::MAX
}

proof fn lemma_product_fits(v: int, t: int)
    requires
        i64::MIN <= v <= i64::MAX,
        0 <= t <= u32::MAX,
    ensures
        -0x1_0000_0000_0000_0000_0000_0000 < v * t < 0x1_0000_0000_0000_0000_0000_0000,
{
    assert(-0x8000_0000_0000_0000 * 0x1_0000_0000 <= v * t <= 0x8000_0000_0000_0000 * 0x1_0000_0000)
        by (nonlinear_arith)
        requires
            -0x8000_0000_0000_0000 <= v <= 0x8000_0000_0000_0000,
            0 <= t <= 0x1_0000_0000,
    ;
}

/// Moves the ball, if there is one, along its velocity for `delta_ms`
/// milliseconds. Nothing bounds it here: the collision rules run afterwards.
pub fn move_ball(game: &mut Game, delta_ms: u32)
    requires
        old(game).ball matches Some(b) ==> move_fits(b, delta_ms as int),
    ensures
        final(game).ball == (match old(game).ball {
            Some(b) => Some(moved_ball(b, delta_ms as int)),
            None => None,
        }),
        final(game).left == old(game).left,
        final(game).right == old(game).right,
{
    if let Some(b) = game.ball {
        proof {
            lemma_product_fits(b.velocity.x as int, delta_ms as int);
            lemma_product_fits(b.velocity.y as int, delta_ms as int);
        }
        let x: i128 = b.position.x as i128 + (b.velocity.x as i128) * (delta_ms as i128);
        let y: i128 = b.position.y as i128 + (b.velocity.y as i128) * (delta_ms as i128);
        game.ball = Some(Ball { position: Vec2 { x: x as i64, y: y as i64 }, velocity: b.velocity });
    }
}

/// The ball's center lies strictly above or below the band between the walls.
pub open spec fn hits_wall(b: Ball) -> bool {
    b.position.y < BALL_MIN_Y || BALL_MAX_Y < b.position.y
}

/// The ball after the wall rule: outside the band it is put back on the band's
/// edge and its vertical velocity is reversed; inside it is unchanged.
pub open spec fn wall_collided(b: Ball) -> Ball {
    if hits_wall(b) {
        Ball {
            position: Vec2 {
                x: b.position.x,
                y: clamp(b.position.y as int, BALL_MIN_Y as int, BALL_MAX_Y as int) as i64,
            },
            velocity: Vec2 { x: b.velocity.x, y: (-b.velocity.y) as i64 },
        }
    } else {
        b
    }
}

/// Reflects the ball, if there is one, off the top and bottom walls.
pub fn handle_wall_collision(game: &mut Game)
    requires
        old(game).ball matches Some(b) ==> b.velocity.y != i64::MIN,
    ensures
        final(game).ball == (match old(game).ball {
            Some(b) => Some(wall_collided(b)),
            None => None,
        }),
        old(game).ball is Some && hits_wall(old(game).ball->Some_0) ==> (final(game).ball is Some
            && BALL_MIN_Y <= final(game).ball->Some_0.position.y <= BALL_MAX_Y
            && final(game).ball->Some_0.velocity.y == -old(game).ball->Some_0.velocity.y
            && final(game).ball->Some_0.position.x == old(game).ball->Some_0.position.x
            && final(game).ball->Some_0.velocity.x == old(game).ball->Some_0.velocity.x),
        old(game).ball is Some && !hits_wall(old(game).ball->Some_0) ==> final(game).ball == old(game).ball,
        final(game).left == old(game).left,
        final(game).right == old(game).right,
{
    if let Some(b) = game.ball {
        let ball_y = b.position.y;
        if ball_y < BALL_MIN_Y || BALL_MAX_Y < ball_y {
            let y = if ball_y < BALL_MIN_Y { BALL_MIN_Y } else { BALL_MAX_Y };
            game.ball = Some(Ball {
                position: Vec2 { x: b.position.x, y },
                velocity: Vec2 { x: b.velocity.x, y: -b.velocity.y },
            });
        }
    }
}

/// The ball travels toward paddle `p`: rightward and left of it, or leftward
/// and right of it.
pub open spec fn heads_toward(b: Ball, p: Paddle) -> bool {
    (b.velocity.x > 0 && b.position.x < p.x) || (b.velocity.x < 0 && b.position.x > p.x)
}

/// The paddle the ball travels toward, the left one taken first.
pub open spec fn candidate(b: Ball, left: Paddle, right: Paddle) -> Option<Paddle> {
    if heads_toward(b, left) {
        Some(left)
    } else if heads_toward(b, right) {
        Some(right)
    } else {
        None
    }
}

/// The ball has passed the paddle threshold on the side it travels toward.
pub open spec fn crossed(b: Ball) -> bool {
    (b.velocity.x > 0 && b.position.x > BALL_MAX_X) || (b.velocity.x < 0 && b.position.x < BALL_MIN_X)
}

/// The ball's center lies within the vertical extent of paddle `p`, edges included.
pub open spec fn within_paddle(b: Ball, p: Paddle) -> bool {
    p.y - PADDLE_HEIGHT / 2 <= b.position.y <= p.y + PADDLE_HEIGHT / 2
}

/// Vertical velocity after a bounce at height `offset` above the paddle's
/// bottom edge: from minus the ball speed at the bottom edge, through zero
/// at the center, to the ball speed at the top edge.
pub open spec fn deflection(offset: int) -> int {
    (2 * offset * BALL_SPEED) / (PADDLE_HEIGHT as int) - BALL_SPEED
}

/// The ball bounced off paddle `p`: pulled back to the threshold, horizontal
/// velocity reversed, vertical velocity set by where it met the paddle.
pub open spec fn bounced(b: Ball, p: Paddle) -> Ball {
    Ball {
        position: Vec2 {
            x: clamp(b.position.x as int, BALL_MIN_X as int, BALL_MAX_X as int) as i64,
            y: b.position.y,
        },
        velocity: Vec2 {
            x: (-b.velocity.x) as i64,
            y: deflection(b.position.y - (p.y - PADDLE_HEIGHT / 2)) as i64,
        },
    }
}

/// The ball after the paddle rule.
pub open spec fn paddle_collided(b: Ball, left: Paddle, right: Paddle) -> Ball {
    match candidate(b, left, right) {
        Some(p) => if crossed(b) && within_paddle(b, p) {
            bounced(b, p)
        } else {
            b
        },
        None => b,
    }
}

fn is_heading_toward(b: &Ball, p: &Paddle) -> (r: bool)
    ensures
        r == heads_toward(*b, *p),
{
    (b.velocity.x > 0 && b.position.x < p.x) || (b.velocity.x < 0 && b.position.x > p.x)
}

fn bounce(b: &Ball, p: &Paddle) -> (r: Ball)
    requires
        crossed(*b),
        within_paddle(*b, *p),
        b.velocity.x != i64::MIN,
    ensures
        r == bounced(*b, *p),
{
    let x = if b.position.x < BALL_MIN_X {
        BALL_MIN_X
    } else if b.position.x > BALL_MAX_X {
        BALL_MAX_X
    } else {
        b.position.x
    };
    // twice the height above the paddle's bottom edge, in [0, 2 * PADDLE_HEIGHT]
    let twice_offset: i128 = 2 * (b.position.y as i128 - p.y as i128) + PADDLE_HEIGHT as i128;
    assert(0 <= twice_offset <= 2 * PADDLE_HEIGHT);
    let scaled: u64 = (twice_offset as u64) * (BALL_SPEED as u64) / (PADDLE_HEIGHT as u64);
    proof {
        lemma_div_is_ordered(0, twice_offset * BALL_SPEED, PADDLE_HEIGHT as int);
        lemma_div_is_ordered(twice_offset * BALL_SPEED, 2 * PADDLE_HEIGHT * BALL_SPEED, PADDLE_HEIGHT as int);
    }
    assert(scaled <= 2 * BALL_SPEED);
    let vy: i64 = scaled as i64 - BALL_SPEED;
    Ball { position: Vec2 { x, y: b.position.y }, velocity: Vec2 { x: -b.velocity.x, y: vy } }
}

/// Bounces the ball, if there is one, off the paddle it travels toward, when
/// it has passed that paddle's threshold within the paddle's vertical extent.
pub fn handle_paddle_collision(game: &mut Game)
    requires
        old(game).ball matches Some(b) ==> b.velocity.x != i64::MIN,
    ensures
        final(game).ball == (match old(game).ball {
            Some(b) => Some(paddle_collided(b, old(game).left, old(game).right)),
            None => None,
        }),
        final(game).left == old(game).left,
        final(game).right == old(game).right,
{
    if let Some(b) = game.ball {
        let target = if is_heading_toward(&b, &game.left) {
            Some(game.left)
        } else if is_heading_toward(&b, &game.right) {
            Some(game.right)
        } else {
            None
        };
        if let Some(p) = target {
            let ball_x = b.position.x;
            let passed = (b.velocity.x > 0 && ball_x > BALL_MAX_X) || (b.velocity.x < 0 && ball_x < BALL_MIN_X);
            let dy: i128 = b.position.y as i128 - p.y as i128;
            let within = -(PADDLE_HEIGHT as i128) <= 2 * dy && 2 * dy <= PADDLE_HEIGHT as i128;
            if passed && within {
                game.ball = Some(bounce(&b, &p));
            }
        }
    }
}

/// The ball's center lies strictly outside the arena's horizontal span.
pub open spec fn out_of_arena(b: Ball) -> bool {
    b.position.x < -ARENA_WIDTH / 2 || ARENA_WIDTH / 2 < b.position.x
}

/// The ball slot after the destruction rule.
pub open spec fn after_destroy(ball: Option<Ball>) -> Option<Ball> {
    match ball {
        Some(b) => if out_of_arena(b) {
            None
        } else {
            Some(b)
        },
        None => None,
    }
}

/// Removes the ball once it has left the arena's horizontal span.
pub fn handle_destroy_ball(game: &mut Game)
    ensures
        final(game).ball == after_destroy(old(game).ball),
        final(game).left == old(game).left,
        final(game).right == old(game).right,
{
    if let Some(b) = game.ball {
        let ball_x = b.position.x;
        if ball_x < -(ARENA_WIDTH / 2) || ARENA_WIDTH / 2 < ball_x {
            game.ball = None;
        }
    }
}

/// Relies on `rand::random`: a value drawn from the thread-local generator.
/// Nothing is known of the value.
pub assume_specification<T>[ rand::random::<T> ]() -> (r: T)
    where
        rand::distributions::Standard: rand::distributions::Distribution<T>,
;

/// The paddles and their controls at the start of a game: the left one
/// steered by W and S, the right one by the up and down arrows, both
/// centered vertically and at rest.
pub open spec fn initial_game() -> Game {
    Game {
        left: Paddle {
            x: LEFT_PADDLE_X,
            y: 0,
            input: PaddleInput { up: false, down: false },
            control: Control::Human(HumanPaddle { up_key: KeyCode::W, down_key: KeyCode::S }),
        },
        right: Paddle {
            x: RIGHT_PADDLE_X,
            y: 0,
            input: PaddleInput { up: false, down: false },
            control: Control::Human(HumanPaddle { up_key: KeyCode::Up, down_key: KeyCode::Down }),
        },
        ball: None,
    }
}

/// Creates the two paddles; no ball exists yet.
pub fn setup() -> (r: Game)
    ensures
        r == initial_game(),
{
    Game {
        left: Paddle {
            x: LEFT_PADDLE_X,
            y: 0,
            input: PaddleInput::default(),
            control: Control::Human(HumanPaddle { up_key: KeyCode::W, down_key: KeyCode::S }),
        },
        right: Paddle {
            x: RIGHT_PADDLE_X,
            y: 0,
            input: PaddleInput::default(),
            control: Control::Human(HumanPaddle { up_key: KeyCode::Up, down_key: KeyCode::Down }),
        },
        ball: None,
    }
}

/// The paddle with intent `(up, down)` if it is randomly controlled, else unchanged.
pub open spec fn steered_randomly(p: Paddle, up: bool, down: bool) -> Paddle {
    match p.control {
        Control::Random(_) => Paddle { input: PaddleInput { up, down }, ..p },
        Control::Human(_) => p,
    }
}

/// Gives a randomly controlled paddle the drawn intent `(up, down)`; a
/// human-controlled paddle is left as it is.
pub fn steer_random(paddle: &mut Paddle, up: bool, down: bool)
    ensures
        *final(paddle) == steered_randomly(*old(paddle), up, down),
{
    if let Control::Random(_) = paddle.control {
        paddle.input = PaddleInput { up, down };
    }
}

/// Draws a fresh intent, two independent coin flips, for each randomly
/// controlled paddle. Human-controlled paddles and the ball are untouched.
pub fn random_paddle(game: &mut Game)
    ensures
        final(game).ball == old(game).ball,
        exists|lu: bool, ld: bool| final(game).left == steered_randomly(old(game).left, lu, ld),
        exists|ru: bool, rd: bool| final(game).right == steered_randomly(old(game).right, ru, rd),
{
    if let Control::Random(_) = game.left.control {
        let up: bool = rand::random();
        let down: bool = rand::random();
        steer_random(&mut game.left, up, down);
    } else {
        assert(game.left == steered_randomly(game.left, false, false));
    }
    if let Control::Random(_) = game.right.control {
        let up: bool = rand::random();
        let down: bool = rand::random();
        steer_random(&mut game.right, up, down);
    } else {
        assert(game.right == steered_randomly(game.right, false, false));
    }
}

/// `keys` holds `key`.
pub fn key_pressed(keys: &[KeyCode], key: KeyCode) -> (r: bool)
    ensures
        r == keys@.contains(key),
{
    let mut i: usize = 0;
    while i < keys.len()
        invariant
            0 <= i <= keys@.len(),
            forall|j: int| 0 <= j < i ==> keys@[j] != key,
        decreases keys@.len() - i,
    {
        if keys[i] == key {
            return true;
        }
        i = i + 1;
    }
    false
}

/// The paddle with the intent read from the pressed keys if it is
/// human-controlled, else unchanged.
pub open spec fn steered_by_keys(p: Paddle, pressed: Seq<KeyCode>) -> Paddle {
    match p.control {
        Control::Human(h) => Paddle {
            input: PaddleInput { up: pressed.contains(h.up_key), down: pressed.contains(h.down_key) },
            ..p
        },
        Control::Random(_) => p,
    }
}

fn steer_by_keys(paddle: &mut Paddle, pressed: &[KeyCode])
    ensures
        *final(paddle) == steered_by_keys(*old(paddle), pressed@),
{
    if let Control::Human(h) = paddle.control {
        let up = key_pressed(pressed, h.up_key);
        let down = key_pressed(pressed, h.down_key);
        paddle.input = PaddleInput { up, down };
    }
}

/// Sets the intent of each human-controlled paddle from the keys held down
/// this frame: up if its up key is pressed, down if its down key is.
pub fn human_paddle(game: &mut Game, pressed: &[KeyCode])
    ensures
        final(game).left == steered_by_keys(old(game).left, pressed@),
        final(game).right == steered_by_keys(old(game).right, pressed@),
        final(game).ball == old(game).ball,
{
    steer_by_keys(&mut game.left, pressed);
    steer_by_keys(&mut game.right, pressed);
}

/// `v` is the launch velocity for vertical component `vy` toward the right
/// (`rightward`) or the left: its horizontal component is the largest whole
/// number whose square leaves the velocity no faster than the ball speed.
pub open spec fn is_launch_velocity(v: Vec2, vy: int, rightward: bool) -> bool {
    &&& v.y == vy
    &&& if rightward { v.x > 0 } else { v.x < 0 }
    &&& v.x * v.x + vy * vy <= BALL_SPEED * BALL_SPEED
    &&& BALL_SPEED * BALL_SPEED < (abs_int(v.x as int) + 1) * (abs_int(v.x as int) + 1) + vy * vy
}

/// The magnitude of `v`.
pub open spec fn abs_int(v: int) -> int {
    if v < 0 {
        -v
    } else {
        v
    }
}

/// A ball as launched: at the center, with a launch velocity whose vertical
/// component is at most a fifth of the ball speed.
pub open spec fn is_fresh_ball(b: Ball) -> bool {
    &&& b.position == Vec2 { x: 0, y: 0 }
    &&& -LAUNCH_MAX_VY <= b.velocity.y <= LAUNCH_MAX_VY
    &&& is_launch_velocity(b.velocity, b.velocity.y as int, b.velocity.x > 0)
}

proof fn lemma_square_bound(r: int)
    requires
        0 <= r,
        (r + 1) * (r + 1) <= BALL_SPEED * BALL_SPEED,
    ensures
        r + 1 <= BALL_SPEED,
{
    assert(r + 1 <= 250) by (nonlinear_arith)
        requires
            0 <= r,
            (r + 1) * (r + 1) <= 62500,
    ;
}

fn floor_sqrt(n: i64) -> (r: i64)
    requires
        0 <= n <= BALL_SPEED * BALL_SPEED,
    ensures
        0 <= r <= BALL_SPEED,
        r * r <= n < (r + 1) * (r + 1),
{
    let mut r: i64 = 0;
    loop
        invariant
            0 <= r <= BALL_SPEED,
            r * r <= n,
            0 <= n <= BALL_SPEED * BALL_SPEED,
        decreases BALL_SPEED - r,
    {
        assert((r + 1) * (r + 1) <= 251 * 251) by (nonlinear_arith)
            requires
                0 <= r <= 250,
        ;
        if (r + 1) * (r + 1) > n {
            return r;
        }
        proof {
            lemma_square_bound(r as int);
        }
        r = r + 1;
    }
}

/// The launch velocity for vertical component `vy` toward the right
/// (`rightward`) or the left.
pub fn launch_velocity(vy: i64, rightward: bool) -> (v: Vec2)
    requires
        -LAUNCH_MAX_VY <= vy <= LAUNCH_MAX_VY,
    ensures
        is_launch_velocity(v, vy as int, rightward),
{
    assert(0 <= vy * vy <= 2500) by (nonlinear_arith)
        requires
            -50 <= vy <= 50,
    ;
    let vy_squared: i64 = vy * vy;
    let m = floor_sqrt(BALL_SPEED * BALL_SPEED - vy_squared);
    assert(m > 0) by (nonlinear_arith)
        requires
            62500 - vy * vy >= 60000,
            62500 - vy * vy < (m + 1) * (m + 1),
            m >= 0,
    ;
    let x = if rightward { m } else { -m };
    assert(x * x == m * m) by (nonlinear_arith)
        requires
            x == m || x == -m,
    ;
    Vec2 { x, y: vy }
}

/// Puts a ball at the center with the launch velocity for `vy` and the
/// given direction, unless a ball already exists.
pub fn spawn_ball(game: &mut Game, vy: i64, rightward: bool)
    requires
        -LAUNCH_MAX_VY <= vy <= LAUNCH_MAX_VY,
    ensures
        old(game).ball is Some ==> final(game).ball == old(game).ball,
        old(game).ball is None ==> (final(game).ball matches Some(b) && b.position == (Vec2 { x: 0, y: 0 })
            && is_launch_velocity(b.velocity, vy as int, rightward)),
        final(game).left == old(game).left,
        final(game).right == old(game).right,
{
    if game.ball.is_none() {
        let velocity = launch_velocity(vy, rightward);
        game.ball = Some(Ball { position: Vec2 { x: 0, y: 0 }, velocity });
    }
}

/// Launches a ball from the center when none exists: the vertical component
/// is drawn from `[-LAUNCH_MAX_VY, LAUNCH_MAX_VY]` and the horizontal
/// direction by a coin flip. An existing ball is left alone.
pub fn handle_create_ball(game: &mut Game)
    ensures
        old(game).ball is Some ==> final(game).ball == old(game).ball,
        old(game).ball is None ==> (final(game).ball matches Some(b) && is_fresh_ball(b)),
        final(game).left == old(game).left,
        final(game).right == old(game).right,
{
    if game.ball.is_none() {
        let draw: u64 = rand::random();
        let vy: i64 = (draw % 101) as i64 - LAUNCH_MAX_VY;
        let rightward: bool = rand::random();
        spawn_ball(game, vy, rightward);
    }
}

/// The ball is inside the arena's horizontal span, between the walls, and
/// no component of its velocity exceeds the ball speed.
pub open spec fn ball_in_play(b: Ball) -> bool {
    &&& -ARENA_WIDTH / 2 <= b.position.x <= ARENA_WIDTH / 2
    &&& BALL_MIN_Y <= b.position.y <= BALL_MAX_Y
    &&& -BALL_SPEED <= b.velocity.x <= BALL_SPEED
    &&& -BALL_SPEED <= b.velocity.y <= BALL_SPEED
}

/// The state between two frames: each paddle on its own side and between the
/// walls, and the ball, if any, in play.
pub open spec fn game_wf(g: Game) -> bool {
    &&& g.left.x == LEFT_PADDLE_X
    &&& g.right.x == RIGHT_PADDLE_X
    &&& PADDLE_MIN_Y <= g.left.y <= PADDLE_MAX_Y
    &&& PADDLE_MIN_Y <= g.right.y <= PADDLE_MAX_Y
    &&& g.ball matches Some(b) ==> ball_in_play(b)
}

/// Deflection stays within the ball speed across the paddle's height.
pub proof fn lemma_deflection_bounded(offset: int)
    requires
        0 <= offset <= PADDLE_HEIGHT,
    ensures
        -BALL_SPEED <= deflection(offset) <= BALL_SPEED,
{
    lemma_div_is_ordered(0, 2 * offset * BALL_SPEED, PADDLE_HEIGHT as int);
    lemma_div_is_ordered(2 * offset * BALL_SPEED, 2 * PADDLE_HEIGHT * BALL_SPEED, PADDLE_HEIGHT as int);
}

proof fn lemma_fresh_ball_in_play(b: Ball)
    requires
        is_fresh_ball(b),
    ensures
        ball_in_play(b),
{
    let vx = b.velocity.x as int;
    let vy = b.velocity.y as int;
    assert(-250 <= vx <= 250) by (nonlinear_arith)
        requires
            vx * vx + vy * vy <= 62500,
    ;
}

proof fn lemma_short_move(x: int, v: int, t: int)
    requires
        -400_000 <= x <= 400_000,
        -250 <= v <= 250,
        0 <= t <= 0xffff_ffff,
    ensures
        -400_000 - 250 * 0xffff_ffff <= x + v * t <= 400_000 + 250 * 0xffff_ffff,
        t <= 1000 && x == 0 ==> -250_000 <= x + v * t <= 250_000,
{
    assert(-250 * t <= v * t <= 250 * t) by (nonlinear_arith)
        requires
            -250 <= v <= 250,
            0 <= t,
    ;
}

/// A paddle moved vertically by its intent over `delta_ms` milliseconds.
pub open spec fn moved_paddle(p: Paddle, delta_ms: int) -> Paddle {
    Paddle { y: moved_paddle_y(p.y as int, p.input, delta_ms) as i64, ..p }
}

/// The game after one frame, given the keys held down, the frame time, the
/// coin flips for the left (`lu`, `ld`) and right (`ru`, `rd`) paddles, and
/// the ball that is launched when the slot is empty. The stages run in order:
/// intents, paddle movement, launch, ball movement, walls, paddles, removal.
pub open spec fn frame_result(
    g: Game,
    pressed: Seq<KeyCode>,
    delta_ms: int,
    lu: bool,
    ld: bool,
    ru: bool,
    rd: bool,
    launched: Ball,
) -> Game {
    let left = moved_paddle(steered_randomly(steered_by_keys(g.left, pressed), lu, ld), delta_ms);
    let right = moved_paddle(steered_randomly(steered_by_keys(g.right, pressed), ru, rd), delta_ms);
    let start = match g.ball {
        Some(b) => b,
        None => launched,
    };
    Game {
        left,
        right,
        ball: after_destroy(Some(paddle_collided(wall_collided(moved_ball(start, delta_ms)), left, right))),
    }
}

/// Runs one frame on already drawn values: the coin flips for each paddle
/// (used by randomly controlled ones only), and the vertical component `vy`
/// and direction of a ball launched if the slot is empty.
pub fn step_frame(
    game: &mut Game,
    pressed: &[KeyCode],
    delta_ms: u32,
    lu: bool,
    ld: bool,
    ru: bool,
    rd: bool,
    vy: i64,
    rightward: bool,
)
    requires
        game_wf(*old(game)),
        -LAUNCH_MAX_VY <= vy <= LAUNCH_MAX_VY,
    ensures
        game_wf(*final(game)),
        exists|launched: Ball|
            {
                &&& (old(game).ball is None ==> launched.position == (Vec2 { x: 0, y: 0 })
                    && is_launch_velocity(launched.velocity, vy as int, rightward))
                &&& *final(game) == frame_result(*old(game), pressed@, delta_ms as int, lu, ld, ru, rd, launched)
            },
        old(game).ball is None && delta_ms <= 1000 ==> final(game).ball is Some,
{
    let ghost start = *game;
    human_paddle(game, pressed);
    steer_random(&mut game.left, lu, ld);
    steer_random(&mut game.right, ru, rd);
    paddle_movement(game, delta_ms);
    let ghost before = *game;
    spawn_ball(game, vy, rightward);
    let ghost launched = game.ball->Some_0;
    proof {
        let b = launched;
        if before.ball is None {
            lemma_fresh_ball_in_play(b);
        }
        lemma_short_move(b.position.x as int, b.velocity.x as int, delta_ms as int);
        lemma_short_move(b.position.y as int, b.velocity.y as int, delta_ms as int);
    }
    move_ball(game, delta_ms);
    handle_wall_collision(game);
    let ghost walled = *game;
    handle_paddle_collision(game);
    proof {
        if let Some(b) = walled.ball {
            if let Some(p) = candidate(b, walled.left, walled.right) {
                if crossed(b) && within_paddle(b, p) {
                    lemma_deflection_bounded(b.position.y - (p.y - PADDLE_HEIGHT / 2));
                }
            }
        }
    }
    handle_destroy_ball(game);
    proof {
        let expected = frame_result(start, pressed@, delta_ms as int, lu, ld, ru, rd, launched);
        assert(game.left == expected.left);
        assert(game.right == expected.right);
        assert(game.ball == expected.ball);
        assert(*game == expected);
    }
}

/// Runs one frame: samples every paddle's intent (human-controlled ones from
/// the keys in `pressed`, randomly controlled ones by coin flips), moves the
/// paddles, launches a ball if there is none, moves the ball by `delta_ms`
/// milliseconds, reflects it off the walls and paddles, and removes it once
/// it has left the arena.
pub fn run_frame(game: &mut Game, pressed: &[KeyCode], delta_ms: u32)
    requires
        game_wf(*old(game)),
    ensures
        game_wf(*final(game)),
        exists|lu: bool, ld: bool, ru: bool, rd: bool, launched: Ball|
            {
                &&& (old(game).ball is None ==> is_fresh_ball(launched))
                &&& *final(game) == frame_result(*old(game), pressed@, delta_ms as int, lu, ld, ru, rd, launched)
            },
        old(game).ball is None && delta_ms <= 1000 ==> final(game).ball is Some,
{
    let lu: bool = rand::random();
    let ld: bool = rand::random();
    let ru: bool = rand::random();
    let rd: bool = rand::random();
    let draw: u64 = rand::random();
    let vy: i64 = (draw % 101) as i64 - LAUNCH_MAX_VY;
    let rightward: bool = rand::random();
    let ghost start = *game;
    step_frame(game, pressed, delta_ms, lu, ld, ru, rd, vy, rightward);
    proof {
        let launched = choose|launched: Ball|
            {
                &&& (start.ball is None ==> launched.position == (Vec2 { x: 0, y: 0 })
                    && is_launch_velocity(launched.velocity, vy as int, rightward))
                &&& *game == frame_result(start, pressed@, delta_ms as int, lu, ld, ru, rd, launched)
            };
        assert(start.ball is None ==> is_fresh_ball(launched));
    }
}

} // verus!

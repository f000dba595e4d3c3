//! The entities of the game: two paddles and at most one ball.
use vstd::prelude::*;

verus! {

/// A keyboard key that can steer a paddle.
#[derive(Debug, Clone, Copy, PartialEq, Eq, Structural)]
pub enum KeyCode {
    W,
    S,
    Up,
    Down,
}

/// Control by a player through two keys.
#[derive(Debug, Clone, Copy, PartialEq, Eq, Structural)]
pub struct HumanPaddle {
    pub up_key: KeyCode,
    pub down_key: KeyCode,
}

/// Control by a fresh coin flip for each direction on every frame.
#[derive(Debug, Clone, Copy, PartialEq, Eq, Structural)]
pub struct RandomPaddle;

/// What steers a paddle.
#[derive(Debug, Clone, Copy, PartialEq, Eq, Structural)]
pub enum Control {
    Human(HumanPaddle),
    Random(RandomPaddle),
}

/// A paddle's intent for the current frame.
#[derive(Debug, Clone, Copy, PartialEq, Eq, Structural)]
pub struct PaddleInput {
    pub up: bool,
    pub down: bool,
}

impl Default for PaddleInput {
    fn default() -> (r: PaddleInput)
        ensures
            !r.up && !r.down,
    {
        PaddleInput { up: false, down: false }
    }
}

/// A pair of integer coordinates: a position or a velocity.
#[derive(Debug, Clone, Copy, PartialEq, Eq, Structural)]
pub struct Vec2 {
    pub x: i64,
    pub y: i64,
}

/// The ball: its center and its velocity.
#[derive(Debug, Clone, Copy, PartialEq, Eq, Structural)]
pub struct Ball {
    pub position: Vec2,
    pub velocity: Vec2,
}

/// A paddle: the position of its center, this frame's intent and its control.
#[derive(Debug, Clone, Copy, PartialEq, Eq, Structural)]
pub struct Paddle {
    pub x: i64,
    pub y: i64,
    pub input: PaddleInput,
    pub control: Control,
}

/// Everything the frame loop updates: both paddles and the ball slot.
#[derive(Debug, Clone, Copy, PartialEq, Eq, Structural)]
pub struct Game {
    pub left: Paddle,
    pub right: Paddle,
    pub ball: Option<Ball>,
}

} // verus!

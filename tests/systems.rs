use pong::components::{Ball, Control, Game, KeyCode, Paddle, PaddleInput, RandomPaddle, Vec2};
use pong::constants::{BALL_MAX_X, BALL_MAX_Y, BALL_MIN_Y, BALL_SPEED, PADDLE_MAX_Y, PADDLE_MIN_Y};
use pong::systems::{
    handle_create_ball, handle_destroy_ball, handle_paddle_collision, handle_wall_collision,
    human_paddle, key_pressed, launch_velocity, move_ball, move_paddle, paddle_movement,
    random_paddle, run_frame, setup, spawn_ball, steer_random, step_frame,
};

fn ball(x: i64, y: i64, vx: i64, vy: i64) -> Ball {
    Ball { position: Vec2 { x, y }, velocity: Vec2 { x: vx, y: vy } }
}

fn game_with_ball(b: Ball) -> Game {
    let mut g = setup();
    g.ball = Some(b);
    g
}

fn random_game() -> Game {
    let mut g = setup();
    g.left.control = Control::Random(RandomPaddle);
    g.right.control = Control::Random(RandomPaddle);
    g
}

#[test]
fn setup_places_paddles() {
    let g = setup();
    assert_eq!(g.left.x, -360_000);
    assert_eq!(g.right.x, 360_000);
    assert_eq!(g.left.y, 0);
    assert_eq!(g.right.y, 0);
    assert_eq!(g.left.input, PaddleInput { up: false, down: false });
    assert!(g.ball.is_none());
}

#[test]
fn paddle_moves_up_by_speed_times_time() {
    let mut g = setup();
    g.left.input = PaddleInput { up: true, down: false };
    g.right.input = PaddleInput { up: false, down: true };
    paddle_movement(&mut g, 100);
    assert_eq!(g.left.y, 50_000);
    assert_eq!(g.right.y, -50_000);
}

#[test]
fn paddle_with_both_keys_stays() {
    let mut p = setup().left;
    p.y = 1_234;
    p.input = PaddleInput { up: true, down: true };
    move_paddle(&mut p, 500);
    assert_eq!(p.y, 1_234);
}

#[test]
fn paddle_is_clamped_to_walls() {
    let mut p: Paddle = setup().left;
    p.y = 224_000;
    p.input = PaddleInput { up: true, down: false };
    move_paddle(&mut p, 16);
    assert_eq!(p.y, PADDLE_MAX_Y);
    p.y = -224_000;
    p.input = PaddleInput { up: false, down: true };
    move_paddle(&mut p, 1_000_000);
    assert_eq!(p.y, PADDLE_MIN_Y);
    p.y = i64::MAX;
    p.input = PaddleInput { up: false, down: false };
    move_paddle(&mut p, 0);
    assert_eq!(p.y, PADDLE_MAX_Y);
}

#[test]
fn human_paddle_reads_keys() {
    let mut g = setup();
    human_paddle(&mut g, &[KeyCode::W, KeyCode::Down]);
    assert_eq!(g.left.input, PaddleInput { up: true, down: false });
    assert_eq!(g.right.input, PaddleInput { up: false, down: true });
    human_paddle(&mut g, &[]);
    assert_eq!(g.left.input, PaddleInput { up: false, down: false });
    assert_eq!(g.right.input, PaddleInput { up: false, down: false });
}

#[test]
fn key_pressed_finds_keys() {
    assert!(key_pressed(&[KeyCode::S, KeyCode::Up], KeyCode::Up));
    assert!(!key_pressed(&[KeyCode::S, KeyCode::Up], KeyCode::W));
    assert!(!key_pressed(&[], KeyCode::W));
}

#[test]
fn steer_random_only_affects_random_paddles() {
    let mut human = setup().left;
    steer_random(&mut human, true, true);
    assert_eq!(human.input, PaddleInput { up: false, down: false });
    let mut random = random_game().left;
    steer_random(&mut random, true, false);
    assert_eq!(random.input, PaddleInput { up: true, down: false });
}

#[test]
fn random_paddle_leaves_human_paddles() {
    let mut g = setup();
    for _ in 0..100 {
        random_paddle(&mut g);
        assert_eq!(g.left.input, PaddleInput { up: false, down: false });
        assert_eq!(g.right.input, PaddleInput { up: false, down: false });
    }
}

#[test]
fn random_paddle_flips_fair_coins() {
    let mut g = random_game();
    let frames = 20_000;
    let mut ups = 0;
    let mut downs = 0;
    let mut both = 0;
    let mut repeats = 0;
    let mut last_up = false;
    for _ in 0..frames {
        random_paddle(&mut g);
        let input = g.left.input;
        if input.up {
            ups += 1;
        }
        if input.down {
            downs += 1;
        }
        if input.up && input.down {
            both += 1;
        }
        if input.up == last_up {
            repeats += 1;
        }
        last_up = input.up;
    }
    let freq = |n: i32| n as f64 / frames as f64;
    assert!((freq(ups) - 0.5).abs() < 0.03);
    assert!((freq(downs) - 0.5).abs() < 0.03);
    assert!((freq(both) - 0.25).abs() < 0.03);
    assert!((freq(repeats) - 0.5).abs() < 0.03);
}

#[test]
fn launch_velocity_values() {
    assert_eq!(launch_velocity(0, true), Vec2 { x: 250, y: 0 });
    assert_eq!(launch_velocity(0, false), Vec2 { x: -250, y: 0 });
    assert_eq!(launch_velocity(50, true), Vec2 { x: 244, y: 50 });
    assert_eq!(launch_velocity(-30, false), Vec2 { x: -248, y: -30 });
}

#[test]
fn spawn_ball_only_when_empty() {
    let mut g = setup();
    spawn_ball(&mut g, 10, false);
    assert_eq!(g.ball, Some(ball(0, 0, -249, 10)));
    spawn_ball(&mut g, 0, true);
    assert_eq!(g.ball, Some(ball(0, 0, -249, 10)));
}

#[test]
fn create_ball_launches_from_center() {
    for _ in 0..200 {
        let mut g = setup();
        handle_create_ball(&mut g);
        let b = g.ball.expect("a ball is launched");
        assert_eq!(b.position, Vec2 { x: 0, y: 0 });
        assert!(-50 <= b.velocity.y && b.velocity.y <= 50);
        let speed2 = b.velocity.x * b.velocity.x + b.velocity.y * b.velocity.y;
        let next = b.velocity.x.abs() + 1;
        assert!(speed2 <= BALL_SPEED * BALL_SPEED);
        assert!(next * next + b.velocity.y * b.velocity.y > BALL_SPEED * BALL_SPEED);
    }
}

#[test]
fn create_ball_is_noop_while_ball_exists() {
    let existing = ball(12_000, -7_000, 100, 20);
    let mut g = game_with_ball(existing);
    for _ in 0..10 {
        handle_create_ball(&mut g);
        assert_eq!(g.ball, Some(existing));
    }
}

#[test]
fn first_frame_has_a_ball() {
    let mut g = setup();
    run_frame(&mut g, &[], 16);
    assert!(g.ball.is_some());
}

#[test]
fn move_ball_integrates_velocity() {
    let mut g = game_with_ball(ball(1_000, -2_000, 200, -100));
    move_ball(&mut g, 10);
    assert_eq!(g.ball, Some(ball(3_000, -3_000, 200, -100)));
    let mut empty = setup();
    move_ball(&mut empty, 10);
    assert!(empty.ball.is_none());
}

#[test]
fn wall_collision_scenario_a_ball_in_middle_unaffected() {
    let mut g = game_with_ball(ball(0, 0, 200, 0));
    handle_wall_collision(&mut g);
    assert_eq!(g.ball, Some(ball(0, 0, 200, 0)));
}

#[test]
fn wall_collision_reflects_above_and_below() {
    let mut g = game_with_ball(ball(5_000, 270_000, 200, 100));
    handle_wall_collision(&mut g);
    assert_eq!(g.ball, Some(ball(5_000, BALL_MAX_Y, 200, -100)));
    let mut g = game_with_ball(ball(5_000, -300_000, -200, -40));
    handle_wall_collision(&mut g);
    assert_eq!(g.ball, Some(ball(5_000, BALL_MIN_Y, -200, 40)));
    let mut g = game_with_ball(ball(5_000, BALL_MAX_Y, 200, 100));
    handle_wall_collision(&mut g);
    assert_eq!(g.ball, Some(ball(5_000, BALL_MAX_Y, 200, 100)));
}

#[test]
fn paddle_collision_scenario_b_top_edge() {
    let mut g = game_with_ball(ball(341_000, 50_000, 250, 0));
    handle_paddle_collision(&mut g);
    assert_eq!(g.ball, Some(ball(BALL_MAX_X, 50_000, -250, BALL_SPEED)));
}

#[test]
fn paddle_collision_scenario_c_center() {
    let mut g = game_with_ball(ball(341_000, 0, 250, 30));
    handle_paddle_collision(&mut g);
    assert_eq!(g.ball, Some(ball(BALL_MAX_X, 0, -250, 0)));
}

#[test]
fn paddle_collision_bottom_edge_and_left_paddle() {
    let mut g = game_with_ball(ball(-345_000, -50_000, -200, 10));
    handle_paddle_collision(&mut g);
    assert_eq!(g.ball, Some(ball(-340_000, -50_000, 200, -250)));
}

#[test]
fn paddle_collision_follows_moved_paddle() {
    let mut g = game_with_ball(ball(341_000, 125_000, 250, 0));
    g.right.y = 100_000;
    handle_paddle_collision(&mut g);
    assert_eq!(g.ball, Some(ball(BALL_MAX_X, 125_000, -250, 125)));
}

#[test]
fn paddle_collision_misses_above_paddle() {
    let passing = ball(345_000, 60_000, 250, 0);
    let mut g = game_with_ball(passing);
    handle_paddle_collision(&mut g);
    assert_eq!(g.ball, Some(passing));
}

#[test]
fn paddle_collision_needs_threshold_crossing() {
    let inside = ball(339_000, 0, 250, 0);
    let mut g = game_with_ball(inside);
    handle_paddle_collision(&mut g);
    assert_eq!(g.ball, Some(inside));
}

#[test]
fn destroy_scenario_d_outside_arena() {
    let mut g = game_with_ball(ball(401_000, 0, 250, 0));
    handle_destroy_ball(&mut g);
    assert!(g.ball.is_none());
    let mut g = game_with_ball(ball(-401_000, 0, -250, 0));
    handle_destroy_ball(&mut g);
    assert!(g.ball.is_none());
}

#[test]
fn destroy_keeps_ball_on_boundary() {
    let edge = ball(400_000, 0, 250, 0);
    let mut g = game_with_ball(edge);
    handle_destroy_ball(&mut g);
    assert_eq!(g.ball, Some(edge));
}

#[test]
fn destroyed_ball_is_relaunched_next_frame() {
    let mut g = game_with_ball(ball(401_000, 0, 250, 0));
    handle_destroy_ball(&mut g);
    assert!(g.ball.is_none());
    run_frame(&mut g, &[], 16);
    assert!(g.ball.is_some());
}

#[test]
fn frames_keep_state_in_bounds() {
    let mut g = random_game();
    for i in 0..5_000u32 {
        run_frame(&mut g, &[], 1 + i % 40);
        assert!(PADDLE_MIN_Y <= g.left.y && g.left.y <= PADDLE_MAX_Y);
        assert!(PADDLE_MIN_Y <= g.right.y && g.right.y <= PADDLE_MAX_Y);
        if let Some(b) = g.ball {
            assert!(BALL_MIN_Y <= b.position.y && b.position.y <= BALL_MAX_Y);
            assert!(-400_000 <= b.position.x && b.position.x <= 400_000);
        }
    }
}

#[test]
fn step_frame_launches_and_moves() {
    let mut g = setup();
    step_frame(&mut g, &[KeyCode::W, KeyCode::Down], 100, true, true, true, true, 0, true);
    assert_eq!(g.left.y, 50_000);
    assert_eq!(g.right.y, -50_000);
    assert_eq!(g.left.input, PaddleInput { up: true, down: false });
    assert_eq!(g.ball, Some(ball(25_000, 0, 250, 0)));
}

#[test]
fn step_frame_uses_coin_flips_for_random_paddles() {
    let mut g = random_game();
    step_frame(&mut g, &[KeyCode::W], 10, false, true, true, false, -50, false);
    assert_eq!(g.left.y, -5_000);
    assert_eq!(g.right.y, 5_000);
    assert_eq!(g.ball, Some(ball(-2_440, -500, -244, -50)));
}

#[test]
fn step_frame_bounces_off_right_paddle() {
    let mut g = game_with_ball(ball(335_000, 0, 250, 0));
    step_frame(&mut g, &[], 40, false, false, false, false, 0, true);
    assert_eq!(g.ball, Some(ball(BALL_MAX_X, 0, -250, 0)));
}

#[test]
fn step_frame_removes_ball_leaving_arena() {
    let mut g = game_with_ball(ball(395_000, 200_000, 250, 0));
    step_frame(&mut g, &[], 40, false, false, false, false, 0, true);
    assert!(g.ball.is_none());
}

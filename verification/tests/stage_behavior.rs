use pong::geom::boxes_collide;
use pong::geom::Vec2;
use pong::model::Ball;
use pong::model::Field;
use pong::model::Paddle;
use pong::model::Scores;
use pong::model::Side;
use pong::stages::ball_move;
use pong::stages::ball_paddle_bounce;
use pong::stages::ball_wall_bounce;
use pong::stages::paddle_move;
use pong::stages::score_update;

fn test_field() -> Field {
    Field { width: 1_920_000, height: 1_080_000 }
}

fn ball_at(x: i64, y: i64, vx: i64, vy: i64) -> Ball {
    Ball { pos: Vec2 { x, y }, vel: Vec2 { x: vx, y: vy }, size: Vec2 { x: 8_000, y: 8_000 } }
}

fn left_paddle_at(y: i64) -> Paddle {
    Paddle { side: Side::Left, pos: Vec2 { x: -925_000, y }, size: Vec2 { x: 30_000, y: 240_000 } }
}

fn right_paddle_at(y: i64) -> Paddle {
    Paddle { side: Side::Right, pos: Vec2 { x: 925_000, y }, size: Vec2 { x: 30_000, y: 240_000 } }
}

#[test]
fn wall_reflection_bottom() {
    let field = test_field();
    let mut ball = ball_at(0, -541_000, 256, -256);
    ball_wall_bounce(&mut ball, &field);
    assert_eq!(ball.pos.y, -540_000);
    assert_eq!(ball.vel.y, 256);
    assert_eq!(ball.vel.x, 256);
    assert_eq!(ball.pos.x, 0);
}

#[test]
fn wall_reflection_top() {
    let field = test_field();
    let mut ball = ball_at(100_000, 541_000, -256, 256);
    ball_wall_bounce(&mut ball, &field);
    assert_eq!(ball.pos.y, 540_000);
    assert_eq!(ball.vel.y, -256);
}

#[test]
fn wall_clamp_keeps_departing_velocity() {
    // Past the bottom wall but already moving back in: the clamp applies,
    // the sign is left alone.
    let field = test_field();
    let mut ball = ball_at(0, -541_000, 256, 256);
    ball_wall_bounce(&mut ball, &field);
    assert_eq!(ball.pos.y, -540_000);
    assert_eq!(ball.vel.y, 256);
}

#[test]
fn wall_idempotent_at_boundary() {
    let field = test_field();
    let mut ball = ball_at(0, -541_000, 256, -256);
    ball_wall_bounce(&mut ball, &field);
    let once = ball;
    ball_wall_bounce(&mut ball, &field);
    assert_eq!(ball, once);
}

#[test]
fn paddle_bounce_left_toward_is_reflected() {
    let mut ball = ball_at(-920_000, 0, -256, 128);
    let paddle = left_paddle_at(0);
    ball_paddle_bounce(&mut ball, &paddle);
    assert_eq!(ball.vel.x, 256);
    assert_eq!(ball.vel.y, 128);
    assert_eq!(ball.pos, Vec2 { x: -920_000, y: 0 });
}

#[test]
fn paddle_bounce_left_away_is_unchanged() {
    let mut ball = ball_at(-920_000, 0, 256, 128);
    let paddle = left_paddle_at(0);
    ball_paddle_bounce(&mut ball, &paddle);
    assert_eq!(ball.vel.x, 256);
}

#[test]
fn paddle_bounce_right_toward_is_reflected() {
    let mut ball = ball_at(920_000, 50_000, 256, 128);
    let paddle = right_paddle_at(0);
    ball_paddle_bounce(&mut ball, &paddle);
    assert_eq!(ball.vel.x, -256);
}

#[test]
fn paddle_bounce_right_away_is_unchanged() {
    let mut ball = ball_at(920_000, 50_000, -256, 128);
    let paddle = right_paddle_at(0);
    ball_paddle_bounce(&mut ball, &paddle);
    assert_eq!(ball.vel.x, -256);
}

#[test]
fn paddle_bounce_without_overlap_is_unchanged() {
    let mut ball = ball_at(0, 0, -256, 128);
    let paddle = left_paddle_at(0);
    ball_paddle_bounce(&mut ball, &paddle);
    assert_eq!(ball.vel.x, -256);
}

#[test]
fn touching_boxes_do_not_collide() {
    // Ball half-extent 4000 plus paddle half-extent 15000: centers exactly
    // 19000 apart touch without overlapping.
    let a_size = Vec2 { x: 8_000, y: 8_000 };
    let b_size = Vec2 { x: 30_000, y: 240_000 };
    let b_pos = Vec2 { x: -925_000, y: 0 };
    assert!(!boxes_collide(Vec2 { x: -906_000, y: 0 }, a_size, b_pos, b_size));
    assert!(boxes_collide(Vec2 { x: -906_001, y: 0 }, a_size, b_pos, b_size));
}

#[test]
fn ball_move_within_clamp() {
    let mut ball = ball_at(0, 0, 128, 0);
    ball_move(&mut ball, 100);
    assert_eq!(ball.pos.x, 12_800);
    assert_eq!(ball.pos.y, 0);
    let mut ball = ball_at(0, 0, 128, 0);
    ball_move(&mut ball, 200);
    assert_eq!(ball.pos.x, 25_600);
}

#[test]
fn ball_move_clamps_long_stalls() {
    // One second elapsed exceeds the 200 ms clamp: the ball moves exactly
    // 25.6 world units, as if 200 ms had passed.
    let mut ball = ball_at(0, 0, 128, 0);
    ball_move(&mut ball, 1_000);
    assert_eq!(ball.pos.x, 25_600);
    // Half a second is clamped the same way.
    let mut ball = ball_at(0, 0, 128, 0);
    ball_move(&mut ball, 500);
    assert_eq!(ball.pos.x, 25_600);
}

#[test]
fn paddle_move_integrates_and_clamps() {
    let field = test_field();
    let mut paddle = left_paddle_at(0);
    paddle_move(&mut paddle, true, false, 16, &field);
    assert_eq!(paddle.pos.y, 4_096);
    paddle_move(&mut paddle, false, true, 16, &field);
    assert_eq!(paddle.pos.y, 0);
    paddle_move(&mut paddle, true, true, 16, &field);
    assert_eq!(paddle.pos.y, 0);
    paddle_move(&mut paddle, false, false, 16, &field);
    assert_eq!(paddle.pos.y, 0);
}

#[test]
fn paddle_clamp_sustained_drive_reaches_top() {
    let field = test_field();
    let mut paddle = left_paddle_at(0);
    let mut frames_to_top = 0u32;
    for frame in 1..=200u32 {
        paddle_move(&mut paddle, true, false, 16, &field);
        assert!(paddle.pos.y <= 540_000);
        if paddle.pos.y == 540_000 && frames_to_top == 0 {
            frames_to_top = frame;
        }
    }
    // 4096 milliunits per frame covers the 540000 to the top wall in 132
    // frames; from then on the paddle sits exactly on the wall.
    assert_eq!(frames_to_top, 132);
    assert_eq!(paddle.pos.y, 540_000);
}

#[test]
fn scoring_left_roundtrip() {
    let field = test_field();
    let mut ball = ball_at(961_000, 123_000, 256, -256);
    let mut scores = Scores { left: 0, right: 0 };
    score_update(&mut ball, &mut scores, &field);
    assert_eq!(scores.left, 1);
    assert_eq!(scores.right, 0);
    assert_eq!(ball.pos, Vec2 { x: 0, y: 0 });
    assert_eq!(ball.vel, Vec2 { x: 256, y: 256 });
}

#[test]
fn scoring_right_roundtrip() {
    let field = test_field();
    let mut ball = ball_at(-961_000, -3_000, -256, 256);
    let mut scores = Scores { left: 4, right: 7 };
    score_update(&mut ball, &mut scores, &field);
    assert_eq!(scores.left, 4);
    assert_eq!(scores.right, 8);
    assert_eq!(ball.pos, Vec2 { x: 0, y: 0 });
    assert_eq!(ball.vel, Vec2 { x: 256, y: 256 });
}

#[test]
fn no_score_on_the_boundary() {
    let field = test_field();
    let mut ball = ball_at(960_000, 0, 256, 256);
    let mut scores = Scores { left: 0, right: 0 };
    score_update(&mut ball, &mut scores, &field);
    assert_eq!(scores, Scores { left: 0, right: 0 });
    assert_eq!(ball.pos.x, 960_000);
    assert_eq!(ball.vel, Vec2 { x: 256, y: 256 });
}

#[test]
fn score_wraps_at_representable_maximum() {
    let field = test_field();
    let mut ball = ball_at(961_000, 0, 256, 256);
    let mut scores = Scores { left: u16::MAX, right: 3 };
    score_update(&mut ball, &mut scores, &field);
    assert_eq!(scores.left, 0);
    assert_eq!(scores.right, 3);
}

#[test]
fn scores_default_is_zero() {
    let scores = Scores::default();
    assert_eq!(scores.left, 0);
    assert_eq!(scores.right, 0);
}

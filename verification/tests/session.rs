use pong::geom::Vec2;
use pong::model::Field;
use pong::model::InputState;
use pong::model::Side;
use pong::sim::Sim;

fn no_keys() -> InputState {
    InputState::released()
}

fn full_hd_session() -> Sim {
    Sim::new(Field { width: 1_920_000, height: 1_080_000 })
}

#[test]
fn new_session_layout() {
    let sim = full_hd_session();
    assert_eq!(sim.ball.pos, Vec2 { x: 0, y: 0 });
    assert_eq!(sim.ball.vel, Vec2 { x: 256, y: 256 });
    assert_eq!(sim.ball.size, Vec2 { x: 8_000, y: 8_000 });
    assert_eq!(sim.left_paddle.side, Side::Left);
    assert_eq!(sim.left_paddle.pos, Vec2 { x: -925_000, y: 0 });
    assert_eq!(sim.left_paddle.size, Vec2 { x: 30_000, y: 240_000 });
    assert_eq!(sim.right_paddle.side, Side::Right);
    assert_eq!(sim.right_paddle.pos, Vec2 { x: 925_000, y: 0 });
    assert_eq!(sim.scores.left, 0);
    assert_eq!(sim.scores.right, 0);
}

#[test]
fn first_frame_integrates_serve_velocity() {
    let mut sim = full_hd_session();
    sim.tick(no_keys(), 16);
    // 256 milliunits per millisecond over 16 ms: 4.096 world units.
    assert_eq!(sim.ball.pos, Vec2 { x: 4_096, y: 4_096 });
    assert_eq!(sim.ball.vel, Vec2 { x: 256, y: 256 });
}

#[test]
fn serve_crosses_the_upper_wall_and_reflects() {
    // Full-HD field, ball served diagonally from the center at 16 ms per
    // frame: about 2.11 s of frames carry it right of x = 540 and above
    // y = 540 world units, and the next frame's wall bounce flips the
    // vertical velocity to -256.
    let mut sim = full_hd_session();
    let mut frames = 0u32;
    while sim.ball.pos.y <= 540_000 {
        sim.tick(no_keys(), 16);
        frames += 1;
        assert!(frames < 1_000);
    }
    assert_eq!(frames, 132);
    assert!(sim.ball.pos.x > 540_000);
    assert!(sim.ball.pos.y > 540_000);
    assert_eq!(sim.ball.vel.y, 256);
    sim.tick(no_keys(), 16);
    assert_eq!(sim.ball.vel.y, -256);
    // The bounce clamped the ball onto the wall before integrating away
    // from it.
    assert_eq!(sim.ball.pos.y, 540_000 - 4_096);
}

#[test]
fn held_keys_move_both_paddles() {
    let mut sim = full_hd_session();
    let input = InputState { left_up: true, left_down: false, right_up: false, right_down: true };
    sim.tick(input, 16);
    assert_eq!(sim.left_paddle.pos.y, 4_096);
    assert_eq!(sim.right_paddle.pos.y, -4_096);
    assert_eq!(sim.left_paddle.pos.x, -925_000);
    assert_eq!(sim.right_paddle.pos.x, 925_000);
}

#[test]
fn a_frame_past_the_right_boundary_scores_left() {
    let mut sim = full_hd_session();
    // Put the ball just inside the right boundary, heading out between the
    // paddle and the wall corner.
    sim.ball.pos = Vec2 { x: 959_000, y: 300_000 };
    sim.ball.vel = Vec2 { x: 256, y: 0 };
    // One 16 ms frame moves it 4.096 units: past x = 960 world units.
    sim.tick(no_keys(), 16);
    assert_eq!(sim.scores.left, 1);
    assert_eq!(sim.scores.right, 0);
    assert_eq!(sim.ball.pos, Vec2 { x: 0, y: 0 });
    assert_eq!(sim.ball.vel, Vec2 { x: 256, y: 256 });
}

#[test]
fn a_frame_past_the_left_boundary_scores_right() {
    let mut sim = full_hd_session();
    sim.ball.pos = Vec2 { x: -959_000, y: -300_000 };
    sim.ball.vel = Vec2 { x: -256, y: 0 };
    sim.tick(no_keys(), 16);
    assert_eq!(sim.scores.left, 0);
    assert_eq!(sim.scores.right, 1);
    assert_eq!(sim.ball.pos, Vec2 { x: 0, y: 0 });
    assert_eq!(sim.ball.vel, Vec2 { x: 256, y: 256 });
}

use ball_lift::scene::{maximize_window, setup_graphics, setup_physics, window_setup, WindowDirective};
use ball_lift::sim::{handle_input, BallState, InputOutcome, KeyState, Vec2Fx};
use ball_lift::telemetry::{altitude_line, fmt_fixed, lift_line, print_ball_altitude};

fn resting_ball(x: i64, y: i64) -> BallState {
    BallState {
        force: Vec2Fx { x: 0, y: 0 },
        torque: 0,
        impulse: Vec2Fx { x: 0, y: 0 },
        torque_impulse: 0,
        translation: Vec2Fx { x, y },
    }
}

#[test]
fn lift_applies_below_threshold() {
    let keys = KeyState { escape_just_pressed: false, lift_held: true };
    let mut ball = resting_ball(7, 10000);
    let r = handle_input(&keys, &mut ball);
    assert_eq!(r, InputOutcome::LiftApplied);
    assert_eq!(ball.impulse, Vec2Fx { x: 0, y: 25000 });
    assert_eq!(ball.torque_impulse, 10000);
    assert_eq!(ball.force, Vec2Fx { x: 0, y: 15000 });
    assert_eq!(ball.torque, 7500);
    assert_eq!(ball.translation, Vec2Fx { x: 7, y: 10450 });
}

#[test]
fn lift_applies_at_threshold_exactly() {
    let keys = KeyState { escape_just_pressed: false, lift_held: true };
    let mut ball = resting_ball(0, 15000);
    let r = handle_input(&keys, &mut ball);
    assert_eq!(r, InputOutcome::LiftApplied);
    assert_eq!(ball.translation.y, 15450);
}

#[test]
fn lift_noop_above_threshold() {
    let keys = KeyState { escape_just_pressed: false, lift_held: true };
    let before = resting_ball(0, 40000);
    let mut ball = before;
    let r = handle_input(&keys, &mut ball);
    assert_eq!(r, InputOutcome::NoChange);
    assert_eq!(ball, before);
}

#[test]
fn lift_noop_just_above_threshold() {
    let keys = KeyState { escape_just_pressed: false, lift_held: true };
    let before = resting_ball(0, 15001);
    let mut ball = before;
    let r = handle_input(&keys, &mut ball);
    assert_eq!(r, InputOutcome::NoChange);
    assert_eq!(ball, before);
}

#[test]
fn key_released_is_noop_and_force_persists() {
    let lift = KeyState { escape_just_pressed: false, lift_held: true };
    let released = KeyState { escape_just_pressed: false, lift_held: false };
    let mut ball = resting_ball(0, 10000);
    assert_eq!(handle_input(&lift, &mut ball), InputOutcome::LiftApplied);
    let after_lift = ball;
    // Releasing the key clears nothing: the continuous force set by the
    // lifted frame stays until overwritten.
    assert_eq!(handle_input(&released, &mut ball), InputOutcome::NoChange);
    assert_eq!(ball, after_lift);
    assert_eq!(ball.force, Vec2Fx { x: 0, y: 15000 });
}

#[test]
fn escape_requests_exit_regardless_of_lift() {
    let keys = KeyState { escape_just_pressed: true, lift_held: true };
    let before = resting_ball(0, 100);
    let mut ball = before;
    let r = handle_input(&keys, &mut ball);
    assert_eq!(r, InputOutcome::ExitRequested);
    assert_eq!(ball, before);
}

#[test]
fn escape_requests_exit_when_idle() {
    let keys = KeyState { escape_just_pressed: true, lift_held: false };
    let before = resting_ball(0, 40000);
    let mut ball = before;
    let r = handle_input(&keys, &mut ball);
    assert_eq!(r, InputOutcome::ExitRequested);
    assert_eq!(ball, before);
}

#[test]
fn falling_ball_gets_lift_only_once_low_enough() {
    // The ball starts at 400.00 units, above the threshold; the engine's
    // integrator pulls it down between frames. While it is above 150.00
    // the held lift key does nothing; on the first frame at or below the
    // threshold the lift applies and the altitude rises by exactly 4.50
    // from its then-current value.
    let keys = KeyState { escape_just_pressed: false, lift_held: true };
    let mut ball = setup_physics().ball.state;
    assert_eq!(ball.translation.y, 40000);
    let fall_per_frame: i64 = 7000;
    let mut frames_without_effect: u32 = 0;
    while ball.translation.y > 15000 {
        let before = ball;
        assert_eq!(handle_input(&keys, &mut ball), InputOutcome::NoChange);
        assert_eq!(ball, before);
        frames_without_effect += 1;
        ball.translation.y -= fall_per_frame;
    }
    assert!(frames_without_effect > 0);
    let y_when_low = ball.translation.y;
    let r = handle_input(&keys, &mut ball);
    assert_eq!(r, InputOutcome::LiftApplied);
    assert_eq!(ball.translation.y, y_when_low + 450);
    assert_eq!(ball.impulse, Vec2Fx { x: 0, y: 25000 });
    assert_eq!(ball.force, Vec2Fx { x: 0, y: 15000 });
}

#[test]
fn startup_scene_has_one_ground_and_one_ball() {
    let scene = setup_physics();
    assert_eq!(scene.ground.half_extents, Vec2Fx { x: 50000, y: 5000 });
    assert_eq!(scene.ground.translation, Vec2Fx { x: 0, y: -10000 });
    assert_eq!(scene.ball.radius, 5000);
    assert_eq!(scene.ball.density, 200);
    assert_eq!(scene.ball.restitution, 142);
    assert_eq!(scene.ball.state.translation, Vec2Fx { x: 0, y: 40000 });
    assert_eq!(scene.ball.state.force, Vec2Fx { x: 0, y: 0 });
    assert_eq!(scene.ball.state.impulse, Vec2Fx { x: 0, y: 0 });
    assert_eq!(scene.ball.state.torque, 0);
    assert_eq!(scene.ball.state.torque_impulse, 0);
}

#[test]
fn startup_spawns_a_2d_camera() {
    assert!(setup_graphics().two_dimensional);
}

#[test]
fn window_parameters_are_fixed() {
    let w = window_setup();
    assert_eq!(w.width, 1280);
    assert_eq!(w.height, 720);
    assert!(w.vsync);
    assert!(w.windowed);
    assert!(w.decorated);
    assert!(w.resizable);
}

#[test]
fn maximize_when_primary_window_found() {
    assert_eq!(maximize_window(true), WindowDirective::Maximize);
}

#[test]
fn report_failure_when_no_primary_window() {
    assert_eq!(maximize_window(false), WindowDirective::ReportFailure);
}

#[test]
fn fixed_point_rendering_exact_values() {
    assert_eq!(fmt_fixed(40000), "400.00");
    assert_eq!(fmt_fixed(15000), "150.00");
    assert_eq!(fmt_fixed(0), "0.00");
    assert_eq!(fmt_fixed(5), "0.05");
    assert_eq!(fmt_fixed(450), "4.50");
    assert_eq!(fmt_fixed(123456), "1234.56");
    assert_eq!(fmt_fixed(-5), "-0.05");
    assert_eq!(fmt_fixed(-10000), "-100.00");
    assert_eq!(fmt_fixed(i64::MIN), "-92233720368547758.08");
    assert_eq!(fmt_fixed(i64::MAX), "92233720368547758.07");
}

#[test]
fn printed_altitude_is_the_transform_coordinate() {
    let t = Vec2Fx { x: -3, y: 40000 };
    assert_eq!(altitude_line(&t), "Ball altitude: 400.00");
    let lifted = Vec2Fx { x: 0, y: 15450 };
    assert_eq!(lift_line(&lifted), "Ball altitude on lift: 154.50");
}

#[test]
fn telemetry_reports_every_body_in_order() {
    let translations = vec![
        Vec2Fx { x: 0, y: 40000 },
        Vec2Fx { x: 1, y: -10000 },
        Vec2Fx { x: 2, y: 42 },
    ];
    let lines = print_ball_altitude(&translations);
    assert_eq!(
        lines,
        vec![
            "Ball altitude: 400.00".to_string(),
            "Ball altitude: -100.00".to_string(),
            "Ball altitude: 0.42".to_string(),
        ]
    );
}

#[test]
fn telemetry_of_empty_world_prints_nothing() {
    let lines = print_ball_altitude(&Vec::new());
    assert!(lines.is_empty());
}

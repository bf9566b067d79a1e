//! The per-frame input rule: what a frame's keyboard state does to the
//! ball's force, impulse and position.
//!
//! All world quantities are fixed-point integers in hundredths of a unit:
//! a stored `15000` stands for `150.00` units.

use vstd::prelude::*;

verus! {

/// Vertical threshold (hundredths): lift only applies while the ball's
/// vertical coordinate is at or below `150.00` units.
pub const LIFT_THRESHOLD: i64 = 15000;

/// Direct upward nudge of the ball's position on each lifted frame:
/// `4.50` units.
pub const LIFT_DY: i64 = 450;

/// One-shot upward impulse set on a lifted frame: `250.00` units.
pub const LIFT_IMPULSE_Y: i64 = 25000;

/// One-shot angular impulse set on a lifted frame: `100.00` units.
pub const LIFT_TORQUE_IMPULSE: i64 = 10000;

/// Continuous upward force set on a lifted frame: `150.00` units.
pub const LIFT_FORCE_Y: i64 = 15000;

/// Continuous torque set on a lifted frame: `75.00` units.
pub const LIFT_TORQUE: i64 = 7500;

/// A plane vector in hundredths of a unit.
#[derive(Clone, Copy, Debug, PartialEq, Eq, Structural)]
pub struct Vec2Fx {
    pub x: i64,
    pub y: i64,
}

/// Everything of the ball that the input rule reads or writes: the two
/// rapier-style actuation components (a continuous force with torque, a
/// one-shot impulse with angular impulse) and the translation of its
/// transform.
#[derive(Clone, Copy, Debug, PartialEq, Eq, Structural)]
pub struct BallState {
    /// Continuous external force, applied by the integrator every frame
    /// until overwritten.
    pub force: Vec2Fx,
    /// Continuous external torque.
    pub torque: i64,
    /// One-shot external impulse.
    pub impulse: Vec2Fx,
    /// One-shot angular impulse.
    pub torque_impulse: i64,
    /// Translation of the ball's transform; `translation.y` is the
    /// altitude.
    pub translation: Vec2Fx,
}

/// The keyboard facts a frame's handler looks at.
#[derive(Clone, Copy, Debug, PartialEq, Eq, Structural)]
pub struct KeyState {
    /// The quit key (Escape) was first pressed this frame.
    pub escape_just_pressed: bool,
    /// The lift key (F) is currently held.
    pub lift_held: bool,
}

/// What a frame's input handling decided.
#[derive(Clone, Copy, Debug, PartialEq, Eq, Structural)]
pub enum InputOutcome {
    /// The process should terminate with success status.
    ExitRequested,
    /// Lift was applied to the ball this frame.
    LiftApplied,
    /// Nothing changed this frame.
    NoChange,
}

/// Lift applies on a frame exactly when the quit key was not just pressed,
/// the lift key is held, and the ball is at or below the threshold.
pub open spec fn lift_active(keys: KeyState, ball: BallState) -> bool {
    &&& !keys.escape_just_pressed
    &&& keys.lift_held
    &&& ball.translation.y <= LIFT_THRESHOLD
}

/// The ball state after one lifted frame: impulse `(0, 250.00)`, angular
/// impulse `100.00`, force `(0, 150.00)`, torque `75.00`, and the
/// vertical coordinate nudged up by `4.50` units. Nothing else moves.
pub open spec fn lifted(ball: BallState) -> BallState {
    BallState {
        force: Vec2Fx { x: 0, y: LIFT_FORCE_Y },
        torque: LIFT_TORQUE,
        impulse: Vec2Fx { x: 0, y: LIFT_IMPULSE_Y },
        torque_impulse: LIFT_TORQUE_IMPULSE,
        translation: Vec2Fx {
            x: ball.translation.x,
            y: (ball.translation.y + LIFT_DY) as i64,
        },
    }
}

/// One frame of input handling for the ball.
///
/// Escape wins over everything and leaves the world untouched; otherwise a
/// held lift key acts only while the ball is at or below the threshold,
/// and then sets the actuation components and nudges the position; in
/// every other case the frame is a no-op. In particular force and impulse
/// are never cleared when the key is released: a once-set force persists
/// until overwritten.
pub fn handle_input(keys: &KeyState, ball: &mut BallState) -> (r: InputOutcome)
    ensures
        keys.escape_just_pressed ==> r == InputOutcome::ExitRequested && *final(ball) == *old(
            ball,
        ),
        lift_active(*keys, *old(ball)) ==> r == InputOutcome::LiftApplied && *final(ball)
            == lifted(*old(ball)),
        lift_active(*keys, *old(ball)) ==> final(ball).translation.y == old(
            ball,
        ).translation.y + LIFT_DY,
        !keys.escape_just_pressed && !lift_active(*keys, *old(ball)) ==> r
            == InputOutcome::NoChange && *final(ball) == *old(ball),
{
    if keys.escape_just_pressed {
        return InputOutcome::ExitRequested;
    }
    if keys.lift_held && ball.translation.y <= LIFT_THRESHOLD {
        ball.impulse = Vec2Fx { x: 0, y: LIFT_IMPULSE_Y };
        ball.torque_impulse = LIFT_TORQUE_IMPULSE;
        ball.force = Vec2Fx { x: 0, y: LIFT_FORCE_Y };
        ball.torque = LIFT_TORQUE;
        ball.translation.y = ball.translation.y + LIFT_DY;
        InputOutcome::LiftApplied
    } else {
        InputOutcome::NoChange
    }
}

} // verus!

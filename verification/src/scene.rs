//! What the startup systems decide: the fixed parameters of the window,
//! the camera, the ground and the ball. The world holds exactly one
//! ground, one ball and one camera, and nothing is spawned or removed
//! after startup; these constructors are the only source of entities.

use vstd::prelude::*;
use crate::sim::{BallState, Vec2Fx};

verus! {

/// Ground translation (hundredths): the plane sits at `-100.00` units.
pub const GROUND_Y: i64 = -10000;

/// Ground collider half-extents (hundredths): a `500.00 x 50.00` box.
pub const GROUND_HALF_X: i64 = 50000;

/// Ground collider half-extent, vertical (hundredths).
pub const GROUND_HALF_Y: i64 = 5000;

/// Ball collider radius (hundredths): `50.00` units.
pub const BALL_RADIUS: i64 = 5000;

/// Ball collider density (hundredths): `2.00`.
pub const BALL_DENSITY: i64 = 200;

/// Ball restitution coefficient (hundredths): `1.42`.
pub const BALL_RESTITUTION: i64 = 142;

/// Ball starting altitude (hundredths): `400.00` units.
pub const BALL_START_Y: i64 = 40000;

/// Physics scale (hundredths): `100.00` pixels per world unit.
pub const PIXELS_PER_METER: i64 = 10000;

/// Initial window width in pixels.
pub const WINDOW_WIDTH: u64 = 1280;

/// Initial window height in pixels.
pub const WINDOW_HEIGHT: u64 = 720;

/// The static ground: a box collider and a fixed transform. Immutable
/// after creation.
#[derive(Clone, Copy, Debug, PartialEq, Eq, Structural)]
pub struct GroundSetup {
    /// Half-extents of the box collider (hundredths).
    pub half_extents: Vec2Fx,
    /// Translation of the ground's transform (hundredths).
    pub translation: Vec2Fx,
}

/// The dynamic ball: its collider and material parameters, and the
/// mutable physics state it starts from.
#[derive(Clone, Copy, Debug, PartialEq, Eq, Structural)]
pub struct BallSetup {
    /// Radius of the circular collider (hundredths).
    pub radius: i64,
    /// Collider density (hundredths).
    pub density: i64,
    /// Restitution (bounciness) coefficient (hundredths).
    pub restitution: i64,
    /// Force, impulse and translation at startup.
    pub state: BallState,
}

/// The whole physics scene spawned at startup: exactly one ground and
/// exactly one ball, by construction.
#[derive(Clone, Copy, Debug, PartialEq, Eq, Structural)]
pub struct PhysicsSetup {
    pub ground: GroundSetup,
    pub ball: BallSetup,
}

/// The one camera: a plain 2D viewpoint with no parameters of its own,
/// created once and never mutated.
#[derive(Clone, Copy, Debug, PartialEq, Eq, Structural)]
pub struct CameraSetup {
    /// A 2D (not 3D) viewpoint.
    pub two_dimensional: bool,
}

/// Fixed display parameters, set before the first frame.
#[derive(Clone, Copy, Debug, PartialEq, Eq, Structural)]
pub struct WindowSetup {
    /// Initial resolution in pixels.
    pub width: u64,
    pub height: u64,
    /// Present with the display's vertical sync (first-in-first-out
    /// queueing), not immediately.
    pub vsync: bool,
    /// Windowed, not fullscreen.
    pub windowed: bool,
    /// The window has decorations.
    pub decorated: bool,
    /// The window can be resized.
    pub resizable: bool,
}

/// What the startup pass does about the primary window.
#[derive(Clone, Copy, Debug, PartialEq, Eq, Structural)]
pub enum WindowDirective {
    /// Ask the windowing backend to maximize the primary window.
    Maximize,
    /// No primary window was found: report the failure and carry on
    /// unmaximized. Non-fatal.
    ReportFailure,
}

/// The scene as the startup systems spawn it.
pub open spec fn initial_physics() -> PhysicsSetup {
    PhysicsSetup {
        ground: GroundSetup {
            half_extents: Vec2Fx { x: GROUND_HALF_X, y: GROUND_HALF_Y },
            translation: Vec2Fx { x: 0, y: GROUND_Y },
        },
        ball: BallSetup {
            radius: BALL_RADIUS,
            density: BALL_DENSITY,
            restitution: BALL_RESTITUTION,
            state: BallState {
                force: Vec2Fx { x: 0, y: 0 },
                torque: 0,
                impulse: Vec2Fx { x: 0, y: 0 },
                torque_impulse: 0,
                translation: Vec2Fx { x: 0, y: BALL_START_Y },
            },
        },
    }
}

/// Spawn parameters for the physics scene. Runs once, before the update
/// loop; compile-time constants, so there is no error path.
///
/// The ground is a static `500.00 x 50.00` half-extent box at
/// `(0, -100.00)`; the ball is dynamic, radius `50.00`, density `2.00`,
/// restitution `1.42`, starting at `(0, 400.00)` with no force or impulse
/// set.
pub fn setup_physics() -> (s: PhysicsSetup)
    ensures
        s == initial_physics(),
{
    PhysicsSetup {
        ground: GroundSetup {
            half_extents: Vec2Fx { x: GROUND_HALF_X, y: GROUND_HALF_Y },
            translation: Vec2Fx { x: 0, y: GROUND_Y },
        },
        ball: BallSetup {
            radius: BALL_RADIUS,
            density: BALL_DENSITY,
            restitution: BALL_RESTITUTION,
            state: BallState {
                force: Vec2Fx { x: 0, y: 0 },
                torque: 0,
                impulse: Vec2Fx { x: 0, y: 0 },
                torque_impulse: 0,
                translation: Vec2Fx { x: 0, y: BALL_START_Y },
            },
        },
    }
}

/// Spawn parameters for the graphics: one 2D camera, so the scene can be
/// seen. Runs once, before the update loop.
pub fn setup_graphics() -> (c: CameraSetup)
    ensures
        c.two_dimensional,
{
    CameraSetup { two_dimensional: true }
}

/// Display parameters configured before the first frame: `1280 x 720`,
/// vertical-sync presentation, windowed, decorated, resizable.
pub fn window_setup() -> (w: WindowSetup)
    ensures
        w == (WindowSetup {
            width: WINDOW_WIDTH,
            height: WINDOW_HEIGHT,
            vsync: true,
            windowed: true,
            decorated: true,
            resizable: true,
        }),
{
    WindowSetup {
        width: WINDOW_WIDTH,
        height: WINDOW_HEIGHT,
        vsync: true,
        windowed: true,
        decorated: true,
        resizable: true,
    }
}

/// The startup decision about the primary window: maximize it when it
/// exists; when it does not, report the failure and continue, since the
/// simulation runs fine unmaximized.
pub fn maximize_window(primary_window_found: bool) -> (d: WindowDirective)
    ensures
        d == (if primary_window_found {
            WindowDirective::Maximize
        } else {
            WindowDirective::ReportFailure
        }),
{
    if primary_window_found {
        WindowDirective::Maximize
    } else {
        WindowDirective::ReportFailure
    }
}

} // verus!

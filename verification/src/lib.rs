//! Decision core of a small 2D physics demo: a ball drops onto a ground
//! plane, a held key applies lift to the ball while it is low enough, and
//! Escape requests shutdown. Positions, forces and impulses are carried in
//! hundredths of a world unit so that every rule about them can be stated
//! and checked exactly.

pub mod scene;
pub mod sim;
pub mod telemetry;

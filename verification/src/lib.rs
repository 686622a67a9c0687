//! A real-time arena-survival simulation: a player defends hives against
//! waves of homing adversaries. The crate holds the per-tick simulation and
//! its collision rules; drawing, input polling and the frame loop are left
//! to the caller.

pub mod actor;
pub mod collide;
pub mod enemy;
pub mod geometry;
pub mod input;
pub mod laws;
pub mod player;
pub mod random;
pub mod scene;
pub mod seek;
pub mod sprite;
pub mod stage;
pub mod terrain;
pub mod units;
pub mod world;

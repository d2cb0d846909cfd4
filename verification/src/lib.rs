//! Sonar-cave simulation core in fixed-point arithmetic.
//!
//! Lengths, angles and elapsed time are integers in thousandths: a position
//! of `16_000` is sixteen world units, a direction of `6_000` is six degrees
//! and an elapsed time of `1_000` is one tick of the sixty-per-second
//! reference clock. An echo's remaining lifetime and the player's velocity
//! are counted in millionths.
//!
//! Sines and cosines are not computed here: whoever drives the simulation
//! hands each update the unit vector of the direction it moves along, or
//! a table of them for the whole circle.

pub mod units;
pub mod mask;
pub mod camera;
mod rng;
pub mod echo;
pub mod field;
pub mod compass;
pub mod beacon;
pub mod player;
pub mod friend;
pub mod monster;
pub mod simulation;

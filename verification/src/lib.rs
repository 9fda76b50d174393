//! Geometry and physics of a camera-and-projector pong table.
//!
//! A camera watches a projected playing field on which real objects act as
//! paddles. This crate holds the integer logic of that installation: how
//! the corners of a detected field are put in order, how the playing area is
//! checked against the projected screen, how the calibration display reacts
//! to commands, how the ball moves, bounces, scores and is served again, and
//! how the command line is read. Frame capture, image filters, collision
//! tests on real-valued shapes and rendering belong to the program around it.

pub mod geometry;
pub mod errors;
pub mod corners;
pub mod detection;
pub mod graphics;
pub mod game;
pub mod display;
pub mod args;

//! Start-up and per-frame decisions of a small textured-quad OpenGL demo.
//!
//! The graphics and windowing calls themselves are made by the host program;
//! this library decides what to ask of them and what their answers mean.
use vstd::prelude::*;

pub mod config;
pub mod frame;
pub mod render;
pub mod setup;
pub mod timer;
pub mod upload;

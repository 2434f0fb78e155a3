//! Scheduling core of a GPU cellular-automata simulator.
//!
//! The library covers the parts of the simulator that decide *what* work is
//! done each displayed frame: parsing life-like rule strings, pacing
//! simulation updates against wall-clock budgets, selecting the read/write
//! surfaces of the double-buffered grid by generation parity, sizing kernel
//! dispatches, and keeping the controller state and the GUI-owned state copy
//! in sync.  The GPU submissions themselves are performed by the surrounding
//! application, driven by the plans this library produces.

pub mod compute_textures;
pub mod error_window;
pub mod image_util;
pub mod math;
pub mod renderer;
pub mod rule;
pub mod simulation;
pub mod time;
pub mod wgsl_preproc;

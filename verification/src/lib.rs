//! The control logic of a small windowed rendering demo.
//!
//! The demo shows two triangles that live in one mesh and draws them by
//! partial ranges, either straight from the vertex stream or through an index
//! sequence. This crate holds everything the demo decides: which of the two
//! draw strategies is active ([`demo`]), what a window event means
//! ([`event`]), which draw submissions a frame issues ([`draw`]) and how the
//! frame loop goes, one iteration at a time or over a recording of polls
//! ([`controller`]). What holds of the loop for every sequence of events is
//! proved in [`laws`]. Opening the window, compiling shaders, uploading meshes
//! and submitting the draws is left to the program that drives the
//! controller.

pub mod controller;
pub mod demo;
pub mod draw;
pub mod event;
pub mod laws;

//! Content-stream interpreter for page descriptions.
//!
//! The library consumes an ordered sequence of drawing operators and turns it
//! into resolved draw calls: path outlines with fully resolved colors, blend
//! modes, fill rules, transforms and clip references.
//!
//! Every number is a 16.16 fixed-point value held in an `i32` (see [`fixed`]).
use vstd::prelude::*;

pub mod fixed;
pub mod geometry;
pub mod color;
pub mod path;
pub mod plotter;
pub mod graphics_state;
pub mod text_state;
pub mod render;

//! Core logic of an interactive rendering playground: the camera/viewport
//! coordinate pipeline, the procedurally seeded quad grid with its
//! pointer-reactive partial updates, and the multi-resolution blur
//! compositor's pass sequencing.
//!
//! Everything geometric is modelled exactly: coordinates are rationals
//! ([`rat`]), grid entities live on an integer lattice ([`grid`]), and the
//! blur chain is a pure pass list ([`blur`]).  The GPU, the window system and
//! the floating-point conversions they require live outside this crate.

pub mod camera;
pub mod controller;
pub mod grid;
pub mod mesh;
pub mod blur;
pub mod rat;
pub mod rng;
pub mod upload;
pub mod vec2;

use vstd::prelude::*;

verus! {

} // verus!

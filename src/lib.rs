//! A solar system scene: sphere meshes, orbiting bodies on a fixed-step clock,
//! a key-steered craft, back-to-front draw ordering and the byte layout of
//! per-object GPU state.

use vstd::prelude::*;

pub mod buffers;
pub mod craft;
pub mod orbit;
pub mod order;
pub mod scene;
pub mod sphere;

verus! {

} // verus!

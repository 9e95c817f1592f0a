//! The verified core of an interactive sphere viewer: pointer-driven camera
//! navigation (orbit, sidle and dolly), the meshes of its decorative grids
//! and occluder circles, and the per-frame plan of compute dispatches and
//! draw bundles. The floating-point camera math and the GPU work that carry
//! these plans out live with the host.

use vstd::prelude::*;

pub mod controller;
pub mod dispatch;
pub mod frame;
pub mod grid;
pub mod passes;
pub mod tracker;

verus! {

} // verus!

use vstd::prelude::*;

pub mod app;
pub mod compute;
pub mod sphere;
pub mod state;

verus! {

} // verus!

use vstd::prelude::*;

pub mod actor;
pub mod friends;
pub mod mutate;
pub mod names;
mod rng;

verus! {

} // verus!

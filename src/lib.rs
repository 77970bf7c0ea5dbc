use vstd::prelude::*;

pub mod engine;
pub mod message;
pub mod session;

verus! {

} // verus!

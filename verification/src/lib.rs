use vstd::prelude::*;

pub mod cli;
pub mod controller;
pub mod headers;
pub mod laws;
pub mod json;
pub mod text;
pub mod transport;

verus! {

} // verus!

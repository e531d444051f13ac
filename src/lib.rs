use vstd::prelude::*;

pub mod models;
pub mod text;
pub mod queue;
pub mod worker;
pub mod templates;

verus! {

} // verus!

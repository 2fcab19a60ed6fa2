use vstd::prelude::*;

pub mod error;
pub mod id;
pub mod item;
pub mod cache;
pub mod loader;
pub mod makers;
pub mod report;
pub mod table;

verus! {

} // verus!

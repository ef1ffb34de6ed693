//! Codec for line-oriented game object definitions, the companion crafting
//! records, their join by identifier, and recipe reachability queries.
use vstd::prelude::*;

pub mod codec;
pub mod text;
pub mod entries;
pub mod fields;
pub mod lists;
pub mod clothing;
pub mod sprite;
pub mod object;
pub mod twotech;
pub mod catalog;
pub mod query;
pub mod files;

verus! {

} // verus!

use vstd::prelude::*;

pub mod bag;
pub mod board;
pub mod game;
pub mod input;
pub mod laws;
pub mod menu;
pub mod piece;

verus! {

} // verus!

use vstd::prelude::*;

pub mod text;
pub mod str_map;
pub mod protocol;
pub mod network;
pub mod state;
pub mod model;
pub mod update;
pub mod display;
pub mod storage;
pub mod laws;

verus! {
}

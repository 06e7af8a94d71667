//! A status command for sway: it periodically runs commands and renders
//! their output as the blocks of a bar.
use vstd::prelude::*;

pub mod bar;
pub mod block;
pub mod blocks;
pub mod config;
mod error;
pub mod protocol;
pub mod text;

pub use error::Error;

verus! {

} // verus!

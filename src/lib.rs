//! Adaptive frame skipping for long, mostly static recordings: each decoded
//! frame is scored against the one before it, frames without enough change
//! are dropped, and kept frames are stamped from an evenly spaced output
//! timeline.
use vstd::prelude::*;

pub mod boxes;
pub mod filter;
pub mod probe;
pub mod scorer;
pub mod skip;
pub mod timeline;

verus! {

} // verus!

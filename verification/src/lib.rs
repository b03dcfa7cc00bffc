//! Control logic for an autonomous fire-fighting vehicle (AFV) and its ground
//! control station (GCS).
use vstd::prelude::*;

pub mod bus;
pub mod control;
pub mod flir_analysis;
pub mod link;
pub mod messages;
pub mod net;
pub mod scan;
pub mod scanner;
pub mod vehicle;
pub mod video;

verus! {

} // verus!

//! A horizontal slider for picking a playback speed.
//!
//! The library holds the slider's logic in fixed point: bounded values
//! ([`normal`]), the nearest-candidate search used for snapping ([`snap`]),
//! the interaction state machine that turns input events into committed
//! value changes ([`slider`]), the placement of rail, handle and tick marks
//! ([`geometry`]), and the table of quantized speeds ([`speed`]).
use vstd::prelude::*;

pub mod geometry;
pub mod normal;
pub mod slider;
pub mod snap;
pub mod speed;
pub mod theme;

verus! {

} // verus!

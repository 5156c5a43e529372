//! A perfect link over an unreliable byte stream: a stop-and-wait sender and
//! receiver that exchange two-byte packets, written so that every decision is
//! a verified function of plain values and the transport's outcomes.

pub mod link;
pub mod messaging;
pub mod receiver;
pub mod sender;
pub mod types;

use vstd::prelude::*;

verus! {

/// The number of payload bytes that one write of the staged sender carries.
pub const DATA_SIZE: usize = 1;

/// The two ends of a link and how many bytes it may carry at once.
#[derive(Clone)]
pub struct Link {
    pub src: String,
    pub dst: String,
    pub capacity: usize,
}

} // verus!

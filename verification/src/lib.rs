//! Planning core of a community greeter: turns membership events into the
//! platform calls that welcome, tag and audit a member.
use vstd::prelude::*;

pub mod bot;
pub mod ext;
pub mod model;
pub mod text;

verus! {

/// Accent colour of an audit embed that records an arrival.
pub const COLOR_GREEN: u32 = 0x73d216;

/// Accent colour of an audit embed that records a departure.
pub const COLOR_RED: u32 = 0xcc0000;

} // verus!

//! Revised-target calculation for the team batting second in a rain-affected
//! limited-overs cricket match, using the Duckworth-Lewis Standard Edition
//! method.

use vstd::prelude::*;

pub mod game;
pub mod overs;
pub mod table;

pub use game::CricketMatch;
pub use game::Grade;
pub use game::Innings;
pub use game::Interruption;
pub use overs::Overs;
pub use overs::subtract;
pub use table::resources_remaining;

verus! {

/// The ways a textual or decimal over quantity can be malformed.
#[derive(Debug)]
pub enum DuckworthLewisError {
    /// The text is not `"<overs>"` or `"<overs>.<balls>"`.
    InvalidOverFormat(String),
    /// The ball component is six or more.
    TooManyBalls(u16),
    /// A component of an `"<overs>.<balls>"` text is not a non-negative
    /// integer that fits in sixteen bits.
    OversNotNumeric(String),
}

} // verus!

//! How the player is set up.
use vstd::prelude::*;

verus! {

/// The bit rates that a listener can choose from, in kilobits per second.
#[derive(Clone, Copy, Debug, PartialEq, Eq, Structural)]
pub enum Bitrate {
    Bitrate96,
    Bitrate160,
    Bitrate320,
}

/// The player's settings.
pub struct PlayerConfig {
    /// The bit rate to play at.
    pub bitrate: Bitrate,
    /// The program to run when playing starts.
    pub onstart: Option<String>,
    /// The program to run when playing stops.
    pub onstop: Option<String>,
    /// Whether loudness is evened out between tracks.
    pub normalization: bool,
    /// The gain in decibels that is added to that of each track, as the bits of a
    /// single-precision number.
    pub normalization_pregain: u32,
}

} // verus!

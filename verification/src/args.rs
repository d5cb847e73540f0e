//! The program's arguments, as plain values, and their validation.
//!
//! Parsing the command line happens outside the library; the library
//! states which argument values a session accepts.

use vstd::prelude::*;

use crate::MAX_VOLUME;
use crate::error::RadioError;

verus! {

/// What a session is started with.
#[derive(Debug, Clone, Copy)]
pub struct Args {
    /// Manually select a station.
    pub select_station: bool,
    /// Volume, between 0 and 9.
    pub volume: u8,
    /// Do not display the logo.
    pub no_logo: bool,
}

/// A session accepts a starting volume only within `0..=9`; anything
/// above is rejected before playback starts, not clamped.
pub fn validate_volume_arg(volume: u8) -> (validated: Result<(), RadioError>)
    ensures
        (validated is Ok) <==> volume <= MAX_VOLUME,
        validated matches Err(error) ==> error is VolumeOutOfRange,
{
    if volume <= MAX_VOLUME {
        Ok(())
    } else {
        Err(RadioError::VolumeOutOfRange)
    }
}

} // verus!

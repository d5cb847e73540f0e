//! Verified core of an internet-radio client.
//!
//! The crate models the pieces of a streaming radio player that make
//! decisions: volume control and the playback command protocol, the
//! mp3 frame-to-sample decoder state machine, the metadata feed's
//! reconnect policy, the now-playing display state machine, and the
//! station roster resolution. Network, audio-device and terminal work
//! stays outside; the library states in its contracts exactly what it
//! computes from the values that work hands it.

use vstd::prelude::*;

pub mod args;
pub mod display;
pub mod error;
pub mod feed;
pub mod models;
pub mod mp3_stream_decoder;
pub mod player;
pub mod stations;
pub mod text;

verus! {

/// Largest volume level a player accepts; levels are clamped to it.
pub const MAX_VOLUME: u8 = 9;

/// A volume level clamped to the accepted range.
pub open spec fn spec_cap_volume(volume: u8) -> u8 {
    if volume <= MAX_VOLUME {
        volume
    } else {
        MAX_VOLUME
    }
}

/// Cap volume to a value between 0 and 9.
pub fn cap_volume(volume: u8) -> (capped: u8)
    ensures
        capped == spec_cap_volume(volume),
{
    if volume <= MAX_VOLUME {
        volume
    } else {
        MAX_VOLUME
    }
}

} // verus!

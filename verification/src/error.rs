//! The library's error kinds and their printable messages.

use vstd::prelude::*;
use vstd::string::StringExecFns;

use crate::text::{i64_to_dec_string, spec_dec_i64};

verus! {

/// Everything that can go wrong in the playback and metadata core.
///
/// Device, station and volume failures are fatal at startup; feed
/// failures are retried within a bounded budget before turning fatal;
/// a stream fetch failure mid-playback leaves the worker silent until
/// the next play command; a decode failure is only raised when the
/// very first frame cannot be parsed.
#[derive(Debug, Clone)]
pub enum RadioError {
    /// No audio output device was available at startup.
    DeviceError,
    /// The initial metadata feed handshake failed.
    ConnectError,
    /// The metadata feed dropped and the retry budget ran out.
    FeedError,
    /// The audio byte stream could not be fetched mid-playback.
    StreamFetchError,
    /// No valid first frame could be parsed from the audio stream.
    DecodeError,
    /// The requested station id is absent from the roster.
    StationNotFound { station_id: i64 },
    /// The volume argument was outside the accepted range.
    VolumeOutOfRange,
}

impl RadioError {
    /// The printable message of this error.
    pub open spec fn spec_message(&self) -> Seq<char> {
        match *self {
            RadioError::DeviceError => "Audio device initialization failed"@,
            RadioError::ConnectError => "Failed to connect to the metadata feed"@,
            RadioError::FeedError => "Server-Sent Events connection was closed"@,
            RadioError::StreamFetchError => "Failed to fetch the audio stream"@,
            RadioError::DecodeError => "No valid audio frame at the start of the stream"@,
            RadioError::StationNotFound { station_id } => "Station with ID \""@ + spec_dec_i64(
                station_id as int,
            ) + "\" not found"@,
            RadioError::VolumeOutOfRange => "Volume must be between 0 and 9"@,
        }
    }

    /// Render the error's message.
    pub fn message(&self) -> (s: String)
        ensures
            s@ == self.spec_message(),
    {
        match *self {
            RadioError::DeviceError => "Audio device initialization failed".to_owned(),
            RadioError::ConnectError => "Failed to connect to the metadata feed".to_owned(),
            RadioError::FeedError => "Server-Sent Events connection was closed".to_owned(),
            RadioError::StreamFetchError => "Failed to fetch the audio stream".to_owned(),
            RadioError::DecodeError => "No valid audio frame at the start of the stream".to_owned(),
            RadioError::StationNotFound { station_id } => {
                let mut s = "Station with ID \"".to_owned();
                s.append(i64_to_dec_string(station_id).as_str());
                s.append("\" not found");
                assert(s@ =~= self.spec_message());
                s
            },
            RadioError::VolumeOutOfRange => "Volume must be between 0 and 9".to_owned(),
        }
    }
}

} // verus!

//! Data model of the radio's metadata service.
//!
//! These are the plain values that the feed delivers and the rest of
//! the library computes over. The process boundary (JSON over the
//! network) is handled outside the library; here the types carry only
//! what the logic reads.

use vstd::prelude::*;

verus! {

/// Listener counters reported by the metadata service.
#[derive(Debug)]
pub struct Listeners {
    pub total: i64,
    pub unique: i64,
    pub current: i64,
}

/// A relay endpoint of a station: one independently selectable stream.
#[derive(Debug)]
pub struct Remote {
    pub id: i64,
    pub name: String,
    pub url: String,
    pub bitrate: i64,
    pub format: String,
    pub listeners: Listeners,
}

/// A mount point of a station; selectable like a [`Remote`].
#[derive(Debug)]
pub struct Mount {
    pub path: String,
    pub is_default: bool,
    pub id: i64,
    pub name: String,
    pub url: String,
    pub bitrate: i64,
    pub format: String,
    pub listeners: Listeners,
}

/// A station: its primary listen URL plus its mounts and remotes.
#[derive(Debug, Clone)]
pub struct Station {
    pub id: i64,
    pub name: String,
    pub shortcode: String,
    pub description: String,
    pub frontend: String,
    pub backend: String,
    pub listen_url: String,
    pub url: String,
    pub public_player_url: String,
    pub playlist_pls_url: String,
    pub playlist_m3u_url: String,
    pub is_public: bool,
    pub mounts: Vec<Mount>,
    pub remotes: Vec<Remote>,
}

/// A song; its identity for display purposes is `id`, not content.
#[derive(Debug, Clone)]
pub struct Song {
    pub id: String,
    pub text: String,
    pub artist: String,
    pub title: String,
    pub album: String,
    pub genre: String,
    pub lyrics: String,
    pub art: String,
}

/// The currently playing song with its progress.
///
/// `duration == 0` means "unknown/unbounded", never a zero-length track.
#[derive(Debug, Clone)]
pub struct NowPlaying {
    pub elapsed: i64,
    pub remaining: i64,
    pub sh_id: i64,
    pub played_at: i64,
    pub duration: i64,
    pub playlist: String,
    pub streamer: String,
    pub is_request: bool,
    pub song: Song,
}

/// The song queued after the current one.
#[derive(Debug, Clone)]
pub struct PlayingNext {
    pub cued_at: i64,
    pub duration: i64,
    pub playlist: String,
    pub is_request: bool,
    pub song: Song,
}

/// One already-played entry of the station's history.
#[derive(Debug, Clone)]
pub struct SongHistory {
    pub sh_id: i64,
    pub played_at: i64,
    pub duration: i64,
    pub playlist: String,
    pub streamer: String,
    pub is_request: bool,
    pub song: Song,
}

/// Live-streamer information of a station.
#[derive(Debug, Clone)]
pub struct Live {
    pub is_live: bool,
    pub streamer_name: String,
}

/// One complete now-playing update from the metadata service.
#[derive(Debug, Clone)]
pub struct CodeRadioMessage {
    pub station: Station,
    pub listeners: Listeners,
    pub live: Live,
    pub now_playing: NowPlaying,
    pub playing_next: PlayingNext,
    pub song_history: Vec<SongHistory>,
    pub is_online: bool,
    pub cache: String,
}

impl Clone for Listeners {
    /// A clone keeps the exact counters.
    fn clone(&self) -> (cloned: Listeners)
        ensures
            cloned == *self,
    {
        Listeners { total: self.total, unique: self.unique, current: self.current }
    }
}

impl Clone for Remote {
    /// A clone keeps the exact endpoint data.
    fn clone(&self) -> (cloned: Remote)
        ensures
            cloned == *self,
    {
        Remote {
            id: self.id,
            name: self.name.clone(),
            url: self.url.clone(),
            bitrate: self.bitrate,
            format: self.format.clone(),
            listeners: self.listeners.clone(),
        }
    }
}

impl Clone for Mount {
    /// A clone keeps the exact endpoint data.
    fn clone(&self) -> (cloned: Mount)
        ensures
            cloned == *self,
    {
        Mount {
            path: self.path.clone(),
            is_default: self.is_default,
            id: self.id,
            name: self.name.clone(),
            url: self.url.clone(),
            bitrate: self.bitrate,
            format: self.format.clone(),
            listeners: self.listeners.clone(),
        }
    }
}

/// The [`Remote`] carrying the same endpoint data as a [`Mount`].
pub open spec fn spec_remote_of_mount(mount: Mount) -> Remote {
    Remote {
        id: mount.id,
        name: mount.name,
        url: mount.url,
        bitrate: mount.bitrate,
        format: mount.format,
        listeners: mount.listeners,
    }
}

impl From<Mount> for Remote {
    fn from(mount: Mount) -> (remote: Remote) {
        Remote {
            id: mount.id,
            name: mount.name,
            url: mount.url,
            bitrate: mount.bitrate,
            format: mount.format,
            listeners: mount.listeners,
        }
    }
}

impl vstd::std_specs::convert::FromSpecImpl<Mount> for Remote {
    open spec fn obeys_from_spec() -> bool {
        true
    }

    open spec fn from_spec(mount: Mount) -> Remote {
        spec_remote_of_mount(mount)
    }
}

} // verus!

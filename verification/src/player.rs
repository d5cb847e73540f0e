//! The playback engine's command side and its worker protocol.
//!
//! A [`Player`] owns the sending end of an ordered, unbounded mailbox
//! to a dedicated playback worker. The worker (which fetches the
//! stream, decodes it and writes to the audio device) lives outside
//! the library; what the library pins down is the command protocol:
//! which commands are sent, how the requested volume level is clamped
//! and remembered, and how the worker must react to each command.

use vstd::prelude::*;

use crate::MAX_VOLUME;
use crate::cap_volume;
use crate::spec_cap_volume;

verus! {

/// The sending end of a standard mpsc channel, used as the player's
/// ordered command mailbox.
#[verifier::external_type_specification]
#[verifier::external_body]
#[verifier::reject_recursive_types(T)]
pub struct ExSender<T>(std::sync::mpsc::Sender<T>);

/// One command to the playback worker; commands are applied strictly
/// in send order.
#[derive(Debug, Clone)]
pub enum PlayerMessage {
    /// Point the worker at a new stream URL, playing at `volume`.
    Play { listen_url: String, volume: u8 },
    /// Apply a new volume level to the active sink.
    Volume { volume: u8 },
}

/// Relies on `std::sync::mpsc::Sender::send`: enqueues the message on
/// the channel's unbounded buffer in send order; the result is `true`
/// unless the receiving end has disconnected. Nothing is promised of
/// the result, since delivery depends on the worker at the far end.
#[verifier::external_body]
fn send_player_message(
    sender: &std::sync::mpsc::Sender<PlayerMessage>,
    message: PlayerMessage,
) -> bool {
    sender.send(message).is_ok()
}

/// The command side of the playback engine.
pub struct Player {
    sender: std::sync::mpsc::Sender<PlayerMessage>,
    volume: u8,
}

impl Player {
    /// The last requested volume level; always within `0..=9`.
    pub closed spec fn spec_volume(&self) -> u8 {
        self.volume
    }

    /// The stored level never leaves the accepted range.
    pub closed spec fn wf(&self) -> bool {
        self.volume <= MAX_VOLUME
    }

    /// Wrap the sending end of the worker's mailbox. The caller binds
    /// the audio device and starts the worker; the player starts at
    /// the loudest level, as a fresh session does.
    pub fn new(sender: std::sync::mpsc::Sender<PlayerMessage>) -> (player: Player)
        ensures
            player.wf(),
            player.spec_volume() == MAX_VOLUME,
    {
        Player { sender, volume: MAX_VOLUME }
    }

    /// Enqueue a command pointing the worker at `listen_url`, carrying
    /// the current volume level. Non-blocking; the previous stream is
    /// interrupted when the worker picks the command up.
    pub fn play(&self, listen_url: &str) {
        let _ = send_player_message(
            &self.sender,
            PlayerMessage::Play { listen_url: listen_url.to_owned(), volume: self.volume },
        );
    }

    /// The last requested volume level (not the sink's instantaneous
    /// gain).
    pub fn volume(&self) -> (volume: u8)
        ensures
            volume == self.spec_volume(),
    {
        self.volume
    }

    /// Clamp `volume` to `0..=9`, remember it, and enqueue a command
    /// applying it to the active (or next) sink.
    pub fn set_volume(&mut self, volume: u8)
        ensures
            final(self).wf(),
            final(self).spec_volume() == spec_cap_volume(volume),
    {
        self.volume = cap_volume(volume);
        let _ = send_player_message(&self.sender, PlayerMessage::Volume { volume: self.volume });
    }
}

/// Requesting a level within the range stores that very level;
/// requesting a higher one stores the maximum. With the contracts of
/// [`Player::set_volume`] and [`Player::volume`], a set followed by a
/// read returns the requested level for every level in the range.
pub proof fn lemma_volume_set_then_read(volume: u8)
    ensures
        volume <= MAX_VOLUME ==> spec_cap_volume(volume) == volume,
        volume > MAX_VOLUME ==> spec_cap_volume(volume) == MAX_VOLUME,
{
}

/// What the playback worker knows: before the first play command it
/// has no stream; afterwards it is pointed at some URL with some
/// volume.
pub enum WorkerState {
    AwaitingFirstPlay,
    Streaming { listen_url: String, volume: u8 },
}

/// What the worker must do after taking one command off the mailbox.
pub enum WorkerAction {
    /// Discard the current sink, fetch `listen_url` and decode it into
    /// a fresh sink at gain level `volume`.
    StartStream { listen_url: String, volume: u8 },
    /// Re-gain the active sink to level `volume`.
    SetSinkVolume { volume: u8 },
    /// Nothing to do: a volume command before any stream exists.
    Ignore,
}

/// The worker's reaction to one command: a play command always
/// (re)starts streaming; a volume command re-gains the active sink and
/// is ignored before the first play.
pub fn worker_handle_message(state: WorkerState, message: PlayerMessage) -> (r: (
    WorkerState,
    WorkerAction,
))
    ensures
        (message matches PlayerMessage::Play { listen_url, volume } ==> {
            &&& r.0 == (WorkerState::Streaming { listen_url, volume })
            &&& r.1 matches WorkerAction::StartStream { listen_url: started_url, volume: started_volume }
            &&& started_url@ == listen_url@
            &&& started_volume == volume
        }),
        (message matches PlayerMessage::Volume { volume } ==> match state {
            WorkerState::AwaitingFirstPlay => r.0 == WorkerState::AwaitingFirstPlay && r.1
                == WorkerAction::Ignore,
            WorkerState::Streaming { listen_url, volume: _ } => r.0 == (WorkerState::Streaming {
                listen_url,
                volume,
            }) && r.1 == (WorkerAction::SetSinkVolume { volume }),
        }),
{
    match message {
        PlayerMessage::Play { listen_url, volume } => {
            let action_url = listen_url.clone();
            (
                WorkerState::Streaming { listen_url, volume },
                WorkerAction::StartStream { listen_url: action_url, volume },
            )
        },
        PlayerMessage::Volume { volume } => {
            match state {
                WorkerState::AwaitingFirstPlay => (
                    WorkerState::AwaitingFirstPlay,
                    WorkerAction::Ignore,
                ),
                WorkerState::Streaming { listen_url, volume: _ } => {
                    let action = WorkerAction::SetSinkVolume { volume };
                    (WorkerState::Streaming { listen_url, volume }, action)
                },
            }
        },
    }
}

} // verus!

//! The now-playing display: song-change detection, the progress
//! line's text, and the volume-key handling.
//!
//! The terminal and the progress-bar widget live outside the library.
//! What the library pins down is every value that reaches them: when
//! a message prints new song metadata and when it only moves the
//! progress line, and the exact text of each piece of that line.

use vstd::prelude::*;
use vstd::string::StringExecFns;

use crate::models::CodeRadioMessage;
use crate::text::{
    humanize_seconds_to_minutes_and_seconds,
    i64_to_dec_string,
    spec_dec_digits,
    spec_dec_i64,
    spec_minutes_and_seconds,
    u64_to_dec_string,
};

verus! {

/// The progress-bar length that stands for an unknown duration.
pub const UNKNOWN_TOTAL_SECONDS: u64 = u64::MAX;

/// The volume part of the progress line, `Volume v/9`; a `*` when no
/// player is available.
pub open spec fn spec_progress_bar_prefix(volume: Option<u8>) -> Seq<char> {
    "Volume "@ + (match volume {
        Some(v) => spec_dec_digits(v as nat),
        None => "*"@,
    }) + "/9"@
}

/// The listener part of the progress line, `Listeners: n`.
pub open spec fn spec_progress_bar_suffix(listener_count: i64) -> Seq<char> {
    "Listeners: "@ + spec_dec_i64(listener_count as int)
}

/// The time part of the progress line: `elapsed / total` when the
/// total is known, elapsed alone when it is unknown.
pub open spec fn spec_progress_info(elapsed_seconds: u64, total_seconds: Option<u64>) -> Seq<char> {
    match total_seconds {
        Some(total) => if total != UNKNOWN_TOTAL_SECONDS {
            spec_minutes_and_seconds(elapsed_seconds as nat) + " / "@ + spec_minutes_and_seconds(
                total as nat,
            )
        } else {
            spec_minutes_and_seconds(elapsed_seconds as nat)
        },
        None => spec_minutes_and_seconds(elapsed_seconds as nat),
    }
}

/// Render the volume part of the progress line.
pub fn get_progress_bar_prefix(volume: Option<u8>) -> (prefix: String)
    ensures
        prefix@ == spec_progress_bar_prefix(volume),
{
    let mut prefix = "Volume ".to_owned();
    match volume {
        Some(v) => prefix.append(u64_to_dec_string(v as u64).as_str()),
        None => {
            proof {
                reveal_strlit("*");
            }
            prefix.append("*")
        },
    }
    prefix.append("/9");
    assert(prefix@ =~= spec_progress_bar_prefix(volume));
    prefix
}

/// Render the listener part of the progress line.
pub fn get_progress_bar_suffix(listener_count: i64) -> (suffix: String)
    ensures
        suffix@ == spec_progress_bar_suffix(listener_count),
{
    let mut suffix = "Listeners: ".to_owned();
    suffix.append(i64_to_dec_string(listener_count).as_str());
    assert(suffix@ =~= spec_progress_bar_suffix(listener_count));
    suffix
}

/// Render the time part of the progress line.
///
/// With both counts known: `01:14 / 05:14`. With the total unknown
/// (absent, or the sentinel of an unbounded bar): `01:14` alone.
pub fn get_progress_bar_progress_info(elapsed_seconds: u64, total_seconds: Option<u64>) -> (info:
    String)
    ensures
        info@ == spec_progress_info(elapsed_seconds, total_seconds),
{
    let elapsed = humanize_seconds_to_minutes_and_seconds(elapsed_seconds);
    match total_seconds {
        Some(total) => {
            if total != UNKNOWN_TOTAL_SECONDS {
                let mut info = elapsed;
                info.append(" / ");
                info.append(humanize_seconds_to_minutes_and_seconds(total).as_str());
                assert(info@ =~= spec_progress_info(elapsed_seconds, total_seconds));
                info
            } else {
                elapsed
            }
        },
        None => elapsed,
    }
}

/// The progress position a message's elapsed count maps to: a second
/// count is never negative, so anything below zero is read as zero.
pub open spec fn spec_position_of_elapsed(elapsed: i64) -> u64 {
    if elapsed >= 0 {
        elapsed as u64
    } else {
        0
    }
}

/// The progress-bar length a message's duration maps to: zero (and
/// anything below) means unknown and maps to the unbounded sentinel.
pub open spec fn spec_bar_length_of_duration(duration: i64) -> u64 {
    if duration > 0 {
        duration as u64
    } else {
        UNKNOWN_TOTAL_SECONDS
    }
}

/// Whether a message starts a different song than the one last shown.
pub open spec fn spec_is_new_song(last_song_id: Seq<char>, message: CodeRadioMessage) -> bool {
    message.now_playing.song.id@ != last_song_id
}

/// Everything the screen needs when a new song's metadata is printed.
pub struct NewSongDisplay {
    pub title: String,
    pub artist: String,
    pub album: String,
    pub bar_length: u64,
    pub position: u64,
    pub prefix: String,
    pub suffix: String,
}

/// What one message does to the screen.
pub enum ScreenUpdate {
    /// Finish the old progress line, print the song metadata block,
    /// and start a fresh progress line.
    NewSong(NewSongDisplay),
    /// Move the existing progress line only.
    SameSong { position: u64, suffix: String },
}

/// The display's maintained state: the last shown song id and the
/// progress line's bounds. It is created before the first message and
/// lives for the whole process.
pub struct DisplayState {
    pub last_song_id: String,
    pub bar_length: u64,
    pub position: u64,
}

impl DisplayState {
    /// Before the first message: no song shown yet.
    pub fn new() -> (state: DisplayState)
        ensures
            state.last_song_id@ == Seq::<char>::empty(),
            state.bar_length == UNKNOWN_TOTAL_SECONDS,
            state.position == 0,
    {
        DisplayState {
            last_song_id: String::new(),
            bar_length: UNKNOWN_TOTAL_SECONDS,
            position: 0,
        }
    }

    /// Apply one received message.
    ///
    /// A message for the song already shown only moves the progress
    /// position and refreshes the listener count; its metadata is not
    /// reprinted. A message for a different song replaces the shown
    /// id and yields the full metadata block with fresh progress
    /// bounds: the duration when it is known, the unbounded sentinel
    /// otherwise.
    pub fn on_message(&mut self, message: &CodeRadioMessage, volume: Option<u8>) -> (update:
        ScreenUpdate)
        ensures
            ({
                let new_song = spec_is_new_song(old(self).last_song_id@, *message);
                let position = spec_position_of_elapsed(message.now_playing.elapsed);
                let suffix_text = spec_progress_bar_suffix(message.listeners.current);
                &&& final(self).last_song_id@ == message.now_playing.song.id@
                &&& final(self).position == position
                &&& (new_song ==> {
                    &&& final(self).bar_length == spec_bar_length_of_duration(
                        message.now_playing.duration,
                    )
                    &&& update matches ScreenUpdate::NewSong(shown)
                    &&& shown.title@ == message.now_playing.song.title@
                    &&& shown.artist@ == message.now_playing.song.artist@
                    &&& shown.album@ == message.now_playing.song.album@
                    &&& shown.bar_length == final(self).bar_length
                    &&& shown.position == position
                    &&& shown.prefix@ == spec_progress_bar_prefix(volume)
                    &&& shown.suffix@ == suffix_text
                })
                &&& (!new_song ==> {
                    &&& final(self).bar_length == old(self).bar_length
                    &&& update matches ScreenUpdate::SameSong { position: p, suffix: s }
                    &&& p == position
                    &&& s@ == suffix_text
                })
            }),
    {
        let song = &message.now_playing.song;
        let elapsed = message.now_playing.elapsed;
        let position: u64 = if elapsed >= 0 {
            elapsed as u64
        } else {
            0
        };
        let suffix = get_progress_bar_suffix(message.listeners.current);
        if song.id == self.last_song_id {
            self.position = position;
            ScreenUpdate::SameSong { position, suffix }
        } else {
            self.last_song_id = song.id.clone();
            let duration = message.now_playing.duration;
            let bar_length: u64 = if duration > 0 {
                duration as u64
            } else {
                UNKNOWN_TOTAL_SECONDS
            };
            self.bar_length = bar_length;
            self.position = position;
            ScreenUpdate::NewSong(
                NewSongDisplay {
                    title: song.title.clone(),
                    artist: song.artist.clone(),
                    album: song.album.clone(),
                    bar_length,
                    position,
                    prefix: get_progress_bar_prefix(volume),
                    suffix,
                },
            )
        }
    }

    /// The once-per-second tick: move the progress position one
    /// second forward, independently of message arrival.
    pub fn tick(&mut self)
        ensures
            final(self).last_song_id@ == old(self).last_song_id@,
            final(self).bar_length == old(self).bar_length,
            final(self).position == if old(self).position < u64::MAX {
                (old(self).position + 1) as u64
            } else {
                old(self).position
            },
    {
        if self.position < u64::MAX {
            self.position = self.position + 1;
        }
    }
}

/// The volume level a keypress asks for: a decimal digit asks for its
/// value, and a request equal to the current level is dropped.
pub open spec fn spec_volume_for_key(key: char, current_volume: u8) -> Option<u8> {
    if 48 <= key as u32 <= 57 && (key as u32 - 48) as u8 != current_volume {
        Some(((key as u32) - 48) as u8)
    } else {
        None
    }
}

/// Decide what a keypress does to the volume: pressing a digit other
/// than the current level requests that level; anything else, or the
/// digit already shown, does nothing.
pub fn volume_for_key(key: char, current_volume: u8) -> (requested: Option<u8>)
    ensures
        requested == spec_volume_for_key(key, current_volume),
{
    let code = key as u32;
    if code >= 48 && code <= 57 {
        let level = (code - 48) as u8;
        if level != current_volume {
            Some(level)
        } else {
            None
        }
    } else {
        None
    }
}

/// Which messages of a whole received sequence print their song's
/// metadata, starting from the shown id `last_song_id`: exactly those
/// that carry a song id different from their predecessor's (or, for
/// the first, from the shown id).
pub open spec fn spec_run_prints(last_song_id: Seq<char>, messages: Seq<CodeRadioMessage>) -> Seq<
    bool,
>
    decreases messages.len(),
{
    if messages.len() == 0 {
        seq![]
    } else {
        seq![spec_is_new_song(last_song_id, messages[0])] + spec_run_prints(
            messages[0].now_playing.song.id@,
            messages.drop_first(),
        )
    }
}

/// Every message is answered by exactly one print decision.
proof fn lemma_run_prints_len(last_song_id: Seq<char>, messages: Seq<CodeRadioMessage>)
    ensures
        spec_run_prints(last_song_id, messages).len() == messages.len(),
    decreases messages.len(),
{
    if messages.len() > 0 {
        lemma_run_prints_len(messages[0].now_playing.song.id@, messages.drop_first());
    }
}

/// The print decision of every message after the first depends only
/// on its own and its predecessor's song id.
proof fn lemma_run_prints_step(last_song_id: Seq<char>, messages: Seq<CodeRadioMessage>, i: int)
    requires
        1 <= i < messages.len(),
    ensures
        spec_run_prints(last_song_id, messages)[i] == spec_is_new_song(
            messages[i - 1].now_playing.song.id@,
            messages[i],
        ),
    decreases i,
{
    lemma_run_prints_len(messages[0].now_playing.song.id@, messages.drop_first());
    if i == 1 {
        assert(messages.drop_first()[0] == messages[1]);
    } else {
        lemma_run_prints_step(messages[0].now_playing.song.id@, messages.drop_first(), i - 1);
        assert(messages.drop_first()[i - 1] == messages[i]);
        assert(messages.drop_first()[i - 2] == messages[i - 1]);
    }
}

/// Two consecutive messages carrying the same song id never produce
/// two metadata prints: the second one never prints.
pub proof fn lemma_no_reprint_for_same_song(
    last_song_id: Seq<char>,
    messages: Seq<CodeRadioMessage>,
    i: int,
)
    requires
        1 <= i < messages.len(),
        messages[i].now_playing.song.id@ == messages[i - 1].now_playing.song.id@,
    ensures
        !spec_run_prints(last_song_id, messages)[i],
{
    lemma_run_prints_step(last_song_id, messages, i);
}

/// Messages with pairwise-distinct consecutive song ids (the first
/// also differing from the shown id) produce exactly one metadata
/// print each, in arrival order.
pub proof fn lemma_distinct_songs_all_print(last_song_id: Seq<char>, messages: Seq<CodeRadioMessage>)
    requires
        messages.len() > 0 ==> spec_is_new_song(last_song_id, messages[0]),
        forall|i: int|
            1 <= i < messages.len() ==> #[trigger] messages[i].now_playing.song.id@ != messages[i
                - 1].now_playing.song.id@,
    ensures
        spec_run_prints(last_song_id, messages).len() == messages.len(),
        forall|i: int| 0 <= i < messages.len() ==> #[trigger] spec_run_prints(
            last_song_id,
            messages,
        )[i],
{
    lemma_run_prints_len(last_song_id, messages);
    assert forall|i: int| 0 <= i < messages.len() implies #[trigger] spec_run_prints(
        last_song_id,
        messages,
    )[i] by {
        if i == 0 {
            assert(spec_run_prints(last_song_id, messages)[0] == spec_is_new_song(
                last_song_id,
                messages[0],
            ));
        } else {
            lemma_run_prints_step(last_song_id, messages, i);
        }
    }
}

} // verus!

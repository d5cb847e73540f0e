use code_radio::feed::{
    FEED_RETRY_BUDGET, FEED_RETRY_DELAY_SECONDS, FeedAction, FeedEvent, LiveFeedClient, Np, Pub,
    SeverSentEventsChannelMessage, now_playing_from_envelope,
};
use code_radio::models::{
    CodeRadioMessage, Listeners, Live, NowPlaying, PlayingNext, Song, Station,
};

fn empty_song(id: &str) -> Song {
    Song {
        id: id.to_string(),
        text: String::new(),
        artist: String::new(),
        title: String::new(),
        album: String::new(),
        genre: String::new(),
        lyrics: String::new(),
        art: String::new(),
    }
}

fn feed_message(song_id: &str) -> CodeRadioMessage {
    CodeRadioMessage {
        station: Station {
            id: 1,
            name: "Code Radio".to_string(),
            shortcode: String::new(),
            description: String::new(),
            frontend: String::new(),
            backend: String::new(),
            listen_url: "http://example.invalid/radio.mp3".to_string(),
            url: String::new(),
            public_player_url: String::new(),
            playlist_pls_url: String::new(),
            playlist_m3u_url: String::new(),
            is_public: true,
            mounts: Vec::new(),
            remotes: Vec::new(),
        },
        listeners: Listeners { total: 2, unique: 2, current: 2 },
        live: Live { is_live: false, streamer_name: String::new() },
        now_playing: NowPlaying {
            elapsed: 5,
            remaining: 0,
            sh_id: 0,
            played_at: 0,
            duration: 100,
            playlist: String::new(),
            streamer: String::new(),
            is_request: false,
            song: empty_song(song_id),
        },
        playing_next: PlayingNext {
            cued_at: 0,
            duration: 0,
            playlist: String::new(),
            is_request: false,
            song: empty_song("next"),
        },
        song_history: Vec::new(),
        is_online: true,
        cache: String::new(),
    }
}

#[test]
fn retry_budget_and_delay_are_the_documented_reference_values() {
    assert_eq!(FEED_RETRY_BUDGET, 3);
    assert_eq!(FEED_RETRY_DELAY_SECONDS, 1);
}

#[test]
fn two_failures_then_a_success_delivers_the_message() {
    let mut client = LiveFeedClient::new();
    assert!(matches!(
        client.on_event(FeedEvent::ConnectionFailed),
        FeedAction::RetryAfterDelay
    ));
    assert!(matches!(
        client.on_event(FeedEvent::ConnectionFailed),
        FeedAction::RetryAfterDelay
    ));
    match client.on_event(FeedEvent::MessageReceived(feed_message("s"))) {
        FeedAction::Deliver(message) => assert_eq!(message.now_playing.song.id, "s"),
        _ => panic!("a message after two failures must be delivered"),
    }
}

#[test]
fn three_consecutive_failures_are_terminal() {
    let mut client = LiveFeedClient::new();
    assert!(matches!(
        client.on_event(FeedEvent::ConnectionFailed),
        FeedAction::RetryAfterDelay
    ));
    assert!(matches!(
        client.on_event(FeedEvent::ConnectionFailed),
        FeedAction::RetryAfterDelay
    ));
    assert!(matches!(
        client.on_event(FeedEvent::ConnectionFailed),
        FeedAction::GiveUp
    ));
}

#[test]
fn a_received_message_resets_the_retry_counter() {
    let mut client = LiveFeedClient::new();
    client.on_event(FeedEvent::ConnectionFailed);
    client.on_event(FeedEvent::ConnectionFailed);
    client.on_event(FeedEvent::MessageReceived(feed_message("s")));
    assert!(matches!(
        client.on_event(FeedEvent::ConnectionFailed),
        FeedAction::RetryAfterDelay
    ));
    assert!(matches!(
        client.on_event(FeedEvent::ConnectionFailed),
        FeedAction::RetryAfterDelay
    ));
    assert!(matches!(
        client.on_event(FeedEvent::ConnectionFailed),
        FeedAction::GiveUp
    ));
}

#[test]
fn envelope_unwraps_to_its_now_playing_message() {
    let envelope = SeverSentEventsChannelMessage {
        channel: "station:coderadio".to_string(),
        publication: Pub { data: Np { np: feed_message("wrapped") }, offset: 42 },
    };
    let message = now_playing_from_envelope(envelope);
    assert_eq!(message.now_playing.song.id, "wrapped");
    assert_eq!(message.listeners.current, 2);
}

use code_radio::error::RadioError;
use code_radio::models::{
    CodeRadioMessage, Listeners, Live, Mount, NowPlaying, PlayingNext, Remote, Song, Station,
};
use code_radio::stations::{
    find_station_by_id, find_station_by_name, get_stations_from_message, resolve_listen_url,
};

fn listeners() -> Listeners {
    Listeners { total: 0, unique: 0, current: 0 }
}

fn remote(id: i64, name: &str, url: &str) -> Remote {
    Remote {
        id,
        name: name.to_string(),
        url: url.to_string(),
        bitrate: 128,
        format: "mp3".to_string(),
        listeners: listeners(),
    }
}

fn mount(id: i64, name: &str, url: &str) -> Mount {
    Mount {
        path: String::new(),
        is_default: false,
        id,
        name: name.to_string(),
        url: url.to_string(),
        bitrate: 64,
        format: "mp3".to_string(),
        listeners: listeners(),
    }
}

fn empty_song() -> Song {
    Song {
        id: String::new(),
        text: String::new(),
        artist: String::new(),
        title: String::new(),
        album: String::new(),
        genre: String::new(),
        lyrics: String::new(),
        art: String::new(),
    }
}

fn message_with_roster(remotes: Vec<Remote>, mounts: Vec<Mount>) -> CodeRadioMessage {
    CodeRadioMessage {
        station: Station {
            id: 1,
            name: "Code Radio".to_string(),
            shortcode: String::new(),
            description: String::new(),
            frontend: String::new(),
            backend: String::new(),
            listen_url: "http://example.invalid/primary.mp3".to_string(),
            url: String::new(),
            public_player_url: String::new(),
            playlist_pls_url: String::new(),
            playlist_m3u_url: String::new(),
            is_public: true,
            mounts,
            remotes,
        },
        listeners: listeners(),
        live: Live { is_live: false, streamer_name: String::new() },
        now_playing: NowPlaying {
            elapsed: 0,
            remaining: 0,
            sh_id: 0,
            played_at: 0,
            duration: 0,
            playlist: String::new(),
            streamer: String::new(),
            is_request: false,
            song: empty_song(),
        },
        playing_next: PlayingNext {
            cued_at: 0,
            duration: 0,
            playlist: String::new(),
            is_request: false,
            song: empty_song(),
        },
        song_history: Vec::new(),
        is_online: true,
        cache: String::new(),
    }
}

#[test]
fn requested_mount_id_resolves_to_mount_url() {
    let message = message_with_roster(vec![remote(1, "r", "A")], vec![mount(2, "m", "B")]);
    assert_eq!(resolve_listen_url(&message, Some(2)).unwrap(), "B");
}

#[test]
fn requested_remote_id_resolves_to_remote_url() {
    let message = message_with_roster(vec![remote(1, "r", "A")], vec![mount(2, "m", "B")]);
    assert_eq!(resolve_listen_url(&message, Some(1)).unwrap(), "A");
}

#[test]
fn absent_station_id_is_a_fatal_station_not_found() {
    let message = message_with_roster(vec![remote(1, "r", "A")], vec![mount(2, "m", "B")]);
    let resolved = resolve_listen_url(&message, Some(99));
    match resolved {
        Err(RadioError::StationNotFound { station_id }) => {
            assert_eq!(station_id, 99);
            assert_eq!(
                RadioError::StationNotFound { station_id }.message(),
                "Station with ID \"99\" not found"
            );
        }
        _ => panic!("an absent id must fail with the station-not-found error"),
    }
}

#[test]
fn no_requested_id_uses_primary_listen_url() {
    let message = message_with_roster(vec![remote(1, "r", "A")], vec![mount(2, "m", "B")]);
    assert_eq!(
        resolve_listen_url(&message, None).unwrap(),
        "http://example.invalid/primary.mp3"
    );
}

#[test]
fn roster_merges_remotes_and_mounts_sorted_by_id() {
    let message = message_with_roster(
        vec![remote(5, "five", "u5"), remote(1, "one", "u1")],
        vec![mount(4, "four", "u4"), mount(2, "two", "u2")],
    );
    let stations = get_stations_from_message(&message);
    let ids: Vec<i64> = stations.iter().map(|s| s.id).collect();
    assert_eq!(ids, vec![1, 2, 4, 5]);
    let names: Vec<String> = stations.iter().map(|s| s.name.clone()).collect();
    assert_eq!(names, vec!["one", "two", "four", "five"]);
}

#[test]
fn find_station_by_id_returns_first_match() {
    let message = message_with_roster(
        vec![remote(3, "a", "u-a"), remote(3, "b", "u-b")],
        Vec::new(),
    );
    let stations = get_stations_from_message(&message);
    let found = find_station_by_id(&stations, 3).expect("id 3 is present");
    assert_eq!(found.id, 3);
    assert!(find_station_by_id(&stations, 4).is_none());
}

#[test]
fn find_station_by_name_matches_exactly() {
    let message = message_with_roster(
        vec![remote(1, "Main relay", "u1"), remote(2, "Backup", "u2")],
        Vec::new(),
    );
    let stations = get_stations_from_message(&message);
    let found = find_station_by_name(&stations, &"Backup".to_string()).expect("name is present");
    assert_eq!(found.id, 2);
    assert_eq!(found.url, "u2");
    assert!(find_station_by_name(&stations, &"backup".to_string()).is_none());
}

#[test]
fn mounts_become_remotes_with_their_endpoint_data() {
    let converted: Remote = mount(7, "m", "u7").into();
    assert_eq!(converted.id, 7);
    assert_eq!(converted.name, "m");
    assert_eq!(converted.url, "u7");
    assert_eq!(converted.bitrate, 64);
    assert_eq!(converted.format, "mp3");
}

use code_radio::player::{Player, PlayerMessage, WorkerAction, WorkerState, worker_handle_message};
use code_radio::{MAX_VOLUME, cap_volume};
use code_radio::args::validate_volume_arg;
use code_radio::display::volume_for_key;
use code_radio::error::RadioError;

fn new_player() -> (Player, std::sync::mpsc::Receiver<PlayerMessage>) {
    let (sender, receiver) = std::sync::mpsc::channel();
    (Player::new(sender), receiver)
}

#[test]
fn set_volume_then_volume_returns_level_in_range() {
    for level in 0u8..=9u8 {
        let (mut player, _receiver) = new_player();
        player.set_volume(level);
        assert_eq!(player.volume(), level);
    }
}

#[test]
fn set_volume_above_range_is_clamped_to_max() {
    for level in [10u8, 11, 42, 255] {
        let (mut player, _receiver) = new_player();
        player.set_volume(level);
        assert_eq!(player.volume(), 9);
    }
}

#[test]
fn fresh_player_starts_at_max_volume() {
    let (player, _receiver) = new_player();
    assert_eq!(player.volume(), MAX_VOLUME);
}

#[test]
fn cap_volume_clamps_only_above_max() {
    assert_eq!(cap_volume(0), 0);
    assert_eq!(cap_volume(9), 9);
    assert_eq!(cap_volume(10), 9);
    assert_eq!(cap_volume(200), 9);
}

#[test]
fn validate_volume_arg_accepts_range_and_rejects_above() {
    for level in 0u8..=9u8 {
        assert!(validate_volume_arg(level).is_ok());
    }
    let rejected = validate_volume_arg(10);
    assert!(matches!(rejected, Err(RadioError::VolumeOutOfRange)));
    assert_eq!(
        rejected.unwrap_err().message(),
        "Volume must be between 0 and 9"
    );
}

#[test]
fn play_enqueues_play_command_with_current_volume() {
    let (mut player, receiver) = new_player();
    player.set_volume(4);
    let _ = receiver.recv().unwrap();
    player.play("http://example.invalid/stream");
    match receiver.recv().unwrap() {
        PlayerMessage::Play { listen_url, volume } => {
            assert_eq!(listen_url, "http://example.invalid/stream");
            assert_eq!(volume, 4);
        }
        PlayerMessage::Volume { .. } => panic!("expected a play command"),
    }
}

#[test]
fn set_volume_enqueues_clamped_volume_command() {
    let (mut player, receiver) = new_player();
    player.set_volume(12);
    match receiver.recv().unwrap() {
        PlayerMessage::Volume { volume } => assert_eq!(volume, 9),
        PlayerMessage::Play { .. } => panic!("expected a volume command"),
    }
}

#[test]
fn commands_arrive_in_send_order() {
    let (mut player, receiver) = new_player();
    player.set_volume(1);
    player.play("a");
    player.set_volume(2);
    let first = receiver.recv().unwrap();
    let second = receiver.recv().unwrap();
    let third = receiver.recv().unwrap();
    assert!(matches!(first, PlayerMessage::Volume { volume: 1 }));
    assert!(matches!(second, PlayerMessage::Play { .. }));
    assert!(matches!(third, PlayerMessage::Volume { volume: 2 }));
}

#[test]
fn worker_play_command_always_starts_streaming() {
    let (state, action) = worker_handle_message(
        WorkerState::AwaitingFirstPlay,
        PlayerMessage::Play { listen_url: "u".to_string(), volume: 3 },
    );
    assert!(matches!(state, WorkerState::Streaming { .. }));
    match action {
        WorkerAction::StartStream { listen_url, volume } => {
            assert_eq!(listen_url, "u");
            assert_eq!(volume, 3);
        }
        _ => panic!("expected a stream start"),
    }
}

#[test]
fn worker_volume_before_first_play_is_ignored() {
    let (state, action) = worker_handle_message(
        WorkerState::AwaitingFirstPlay,
        PlayerMessage::Volume { volume: 5 },
    );
    assert!(matches!(state, WorkerState::AwaitingFirstPlay));
    assert!(matches!(action, WorkerAction::Ignore));
}

#[test]
fn worker_volume_while_streaming_regains_sink() {
    let streaming = WorkerState::Streaming { listen_url: "u".to_string(), volume: 9 };
    let (state, action) = worker_handle_message(streaming, PlayerMessage::Volume { volume: 2 });
    match state {
        WorkerState::Streaming { listen_url, volume } => {
            assert_eq!(listen_url, "u");
            assert_eq!(volume, 2);
        }
        _ => panic!("expected to keep streaming"),
    }
    assert!(matches!(action, WorkerAction::SetSinkVolume { volume: 2 }));
}

#[test]
fn volume_for_key_accepts_new_digit_only() {
    assert_eq!(volume_for_key('0', 9), Some(0));
    assert_eq!(volume_for_key('7', 9), Some(7));
    assert_eq!(volume_for_key('9', 9), None);
    assert_eq!(volume_for_key('a', 9), None);
    assert_eq!(volume_for_key(' ', 9), None);
    assert_eq!(volume_for_key('5', 5), None);
}

use code_radio::error::RadioError;
use code_radio::mp3_stream_decoder::{FrameData, FrameSource, Mp3StreamDecoder, is_mp3};

fn frame(samples: Vec<i16>, channels: u16, sample_rate: u32) -> FrameData {
    FrameData { samples, channels, sample_rate }
}

#[test]
fn open_learns_the_first_frames_declared_values() {
    let source = FrameSource::scripted(vec![
        frame(vec![1, -2, 3], 2, 44100),
        frame(vec![4, 5], 2, 44100),
    ]);
    let decoder = Mp3StreamDecoder::new(source).expect("a first frame is present");
    assert_eq!(decoder.channels(), 2);
    assert_eq!(decoder.sample_rate(), 44100);
    assert_eq!(decoder.current_frame_len(), Some(3));
}

#[test]
fn decoding_yields_every_frames_samples_in_order() {
    let source = FrameSource::scripted(vec![
        frame(vec![1, -2, 3], 2, 44100),
        frame(vec![4, 5], 2, 44100),
        frame(vec![-6], 1, 22050),
    ]);
    let mut decoder = Mp3StreamDecoder::new(source).expect("a first frame is present");
    let mut produced = Vec::new();
    while let Some(sample) = decoder.next() {
        produced.push(sample);
    }
    assert_eq!(produced, vec![1, -2, 3, 4, 5, -6]);
    assert!(decoder.next().is_none());
}

#[test]
fn a_valid_frame_sequence_yields_a_nonempty_sample_sequence() {
    let source = FrameSource::scripted(vec![frame(vec![7], 1, 8000)]);
    let mut decoder = Mp3StreamDecoder::new(source).expect("a first frame is present");
    assert_eq!(decoder.next(), Some(7));
    assert_eq!(decoder.channels(), 1);
    assert_eq!(decoder.sample_rate(), 8000);
}

#[test]
fn declared_values_follow_the_current_frame() {
    let source = FrameSource::scripted(vec![
        frame(vec![1], 2, 44100),
        frame(vec![2], 1, 22050),
    ]);
    let mut decoder = Mp3StreamDecoder::new(source).expect("a first frame is present");
    assert_eq!(decoder.next(), Some(1));
    assert_eq!(decoder.channels(), 2);
    assert_eq!(decoder.next(), Some(2));
    assert_eq!(decoder.channels(), 1);
    assert_eq!(decoder.sample_rate(), 22050);
}

#[test]
fn a_source_with_no_valid_first_frame_fails_the_open() {
    let source = FrameSource::scripted(Vec::new());
    match Mp3StreamDecoder::new(source) {
        Err(error) => {
            assert!(matches!(error, RadioError::DecodeError));
            assert_eq!(
                error.message(),
                "No valid audio frame at the start of the stream"
            );
        }
        Ok(_) => panic!("an empty source must fail the open"),
    }
}

#[test]
fn the_sequence_ends_silently_at_the_last_frame() {
    let source = FrameSource::scripted(vec![frame(vec![1, 2], 2, 44100)]);
    let mut decoder = Mp3StreamDecoder::new(source).expect("a first frame is present");
    assert_eq!(decoder.next(), Some(1));
    assert_eq!(decoder.next(), Some(2));
    assert_eq!(decoder.next(), None);
    assert_eq!(decoder.next(), None);
}

#[test]
fn into_inner_returns_the_source_where_it_stands() {
    let source = FrameSource::scripted(vec![
        frame(vec![1], 2, 44100),
        frame(vec![2], 2, 44100),
    ]);
    let decoder = Mp3StreamDecoder::new(source).expect("a first frame is present");
    match decoder.into_inner() {
        FrameSource::Scripted { frames, next_index } => {
            assert_eq!(frames.len(), 2);
            assert_eq!(next_index, 1);
        }
        FrameSource::Network { .. } => panic!("a scripted source must come back scripted"),
    }
}

#[test]
fn the_validity_probe_deliberately_accepts_anything() {
    assert!(is_mp3(&[]));
    assert!(is_mp3(&[0x00, 0x01, 0x02]));
}

#[test]
fn error_messages_name_each_failure() {
    assert_eq!(
        RadioError::DeviceError.message(),
        "Audio device initialization failed"
    );
    assert_eq!(
        RadioError::ConnectError.message(),
        "Failed to connect to the metadata feed"
    );
    assert_eq!(
        RadioError::FeedError.message(),
        "Server-Sent Events connection was closed"
    );
    assert_eq!(
        RadioError::StreamFetchError.message(),
        "Failed to fetch the audio stream"
    );
    assert_eq!(
        RadioError::StationNotFound { station_id: -7 }.message(),
        "Station with ID \"-7\" not found"
    );
}

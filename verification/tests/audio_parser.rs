use simple_transcribe_rs::audio_parser::{
    begin_decode, packet_is_selected, validate_track, DecodeAction, DecodeEvent, DecodeState,
    DecodeStatus, FormatError, FrameOutcome, MAX_CHANNELS, REQUIRED_SAMPLE_RATE,
};

#[test]
fn accepts_sixteen_khz_mono() {
    assert_eq!(validate_track(Some(16000), Some(1)), Ok(()));
}

#[test]
fn accepts_sixteen_khz_stereo() {
    assert_eq!(validate_track(Some(16000), Some(2)), Ok(()));
}

#[test]
fn accepts_undeclared_parameters() {
    assert_eq!(validate_track(None, None), Ok(()));
    assert_eq!(validate_track(None, Some(2)), Ok(()));
    assert_eq!(validate_track(Some(16000), None), Ok(()));
}

#[test]
fn rejects_forty_eight_khz() {
    assert_eq!(
        validate_track(Some(48000), Some(1)),
        Err(FormatError::UnsupportedSampleRate { rate: 48000 })
    );
}

#[test]
fn rejects_any_rate_other_than_required() {
    assert_eq!(REQUIRED_SAMPLE_RATE, 16000);
    assert_eq!(
        validate_track(Some(44100), None),
        Err(FormatError::UnsupportedSampleRate { rate: 44100 })
    );
    assert_eq!(
        validate_track(Some(8000), Some(1)),
        Err(FormatError::UnsupportedSampleRate { rate: 8000 })
    );
}

#[test]
fn rejects_more_than_two_channels() {
    assert_eq!(MAX_CHANNELS, 2);
    assert_eq!(
        validate_track(Some(16000), Some(3)),
        Err(FormatError::UnsupportedChannelCount { channels: 3 })
    );
}

#[test]
fn sample_rate_is_checked_before_channel_count() {
    assert_eq!(
        validate_track(Some(48000), Some(5)),
        Err(FormatError::UnsupportedSampleRate { rate: 48000 })
    );
}

#[test]
fn remedy_names_the_exact_conversion_command() {
    let err = FormatError::UnsupportedSampleRate { rate: 48000 };
    assert_eq!(
        err.remedy(),
        "ffmpeg -i <input_audio_file> -ac 1 -ar 16000 -sample_fmt fltp <output_audio_file>"
    );
}

#[test]
fn begin_decode_rejects_bad_format_before_any_decoding() {
    let r = begin_decode(Some(48000), Some(1));
    match r {
        Err(FormatError::UnsupportedSampleRate { rate }) => assert_eq!(rate, 48000),
        _ => panic!("a non-16kHz input must be rejected before decoding"),
    }
}

#[test]
fn begin_decode_opens_a_running_plan_on_valid_format() {
    let s = begin_decode(Some(16000), Some(2)).unwrap();
    assert_eq!(s.status(), DecodeStatus::Running);
    assert!(s.appended().is_empty());
}

#[test]
fn packets_of_other_tracks_are_skipped() {
    assert!(packet_is_selected(3, 3));
    assert!(!packet_is_selected(3, 4));
    let mut s = DecodeState::new();
    assert_eq!(s.step(DecodeEvent::OffTrack), DecodeAction::SkipPacket);
    assert!(s.appended().is_empty());
    assert_eq!(s.status(), DecodeStatus::Running);
}

#[test]
fn frames_are_appended_in_packet_order() {
    let mut s = DecodeState::new();
    assert_eq!(
        s.step(DecodeEvent::OnTrack { chunk: 0, frame: FrameOutcome::Frame { channel_count: 1 } }),
        DecodeAction::AppendMono { chunk: 0 }
    );
    assert_eq!(s.step(DecodeEvent::OffTrack), DecodeAction::SkipPacket);
    assert_eq!(
        s.step(DecodeEvent::OnTrack { chunk: 1, frame: FrameOutcome::Frame { channel_count: 2 } }),
        DecodeAction::DownmixAndAppend { chunk: 1 }
    );
    assert_eq!(
        s.step(DecodeEvent::OnTrack { chunk: 2, frame: FrameOutcome::Recoverable }),
        DecodeAction::SkipFrame
    );
    assert_eq!(
        s.step(DecodeEvent::OnTrack { chunk: 3, frame: FrameOutcome::Frame { channel_count: 1 } }),
        DecodeAction::AppendMono { chunk: 3 }
    );
    assert_eq!(s.step(DecodeEvent::StreamEnded), DecodeAction::FinishStream);
    assert_eq!(s.status(), DecodeStatus::Finished);
    assert_eq!(s.appended().as_slice(), &[0, 1, 3]);
}

#[test]
fn stereo_frames_are_downmixed_and_mono_frames_are_not() {
    let mut s = DecodeState::new();
    let stereo =
        s.step(DecodeEvent::OnTrack { chunk: 9, frame: FrameOutcome::Frame { channel_count: 2 } });
    assert_eq!(stereo, DecodeAction::DownmixAndAppend { chunk: 9 });
    let mono =
        s.step(DecodeEvent::OnTrack { chunk: 10, frame: FrameOutcome::Frame { channel_count: 1 } });
    assert_eq!(mono, DecodeAction::AppendMono { chunk: 10 });
}

#[test]
fn recoverable_decode_errors_are_swallowed() {
    let mut s = DecodeState::new();
    assert_eq!(
        s.step(DecodeEvent::OnTrack { chunk: 0, frame: FrameOutcome::Recoverable }),
        DecodeAction::SkipFrame
    );
    assert_eq!(s.status(), DecodeStatus::Running);
    assert!(s.appended().is_empty());
}

#[test]
fn stream_io_error_keeps_the_accumulated_frames() {
    let mut s = DecodeState::new();
    s.step(DecodeEvent::OnTrack { chunk: 4, frame: FrameOutcome::Frame { channel_count: 1 } });
    assert_eq!(s.step(DecodeEvent::StreamEnded), DecodeAction::FinishStream);
    assert_eq!(s.status(), DecodeStatus::Finished);
    assert_eq!(s.appended().as_slice(), &[4]);
}

#[test]
fn fatal_decoder_error_stops_with_the_accumulated_frames() {
    let mut s = DecodeState::new();
    s.step(DecodeEvent::OnTrack { chunk: 5, frame: FrameOutcome::Frame { channel_count: 1 } });
    assert_eq!(
        s.step(DecodeEvent::OnTrack { chunk: 6, frame: FrameOutcome::Fatal }),
        DecodeAction::FinishStream
    );
    assert_eq!(s.status(), DecodeStatus::Finished);
    assert_eq!(s.appended().as_slice(), &[5]);
}

#[test]
fn track_list_change_fails_the_decode() {
    let mut s = DecodeState::new();
    assert_eq!(s.step(DecodeEvent::TrackListChanged), DecodeAction::AbortDecode);
    assert_eq!(s.status(), DecodeStatus::Failed);
}

#[test]
fn format_error_fails_the_decode() {
    let mut s = DecodeState::new();
    assert_eq!(s.step(DecodeEvent::FormatFatal), DecodeAction::AbortDecode);
    assert_eq!(s.status(), DecodeStatus::Failed);
}

#[test]
fn a_stopped_plan_ignores_further_events() {
    let mut s = DecodeState::new();
    s.step(DecodeEvent::OnTrack { chunk: 1, frame: FrameOutcome::Frame { channel_count: 1 } });
    s.step(DecodeEvent::StreamEnded);
    assert_eq!(
        s.step(DecodeEvent::OnTrack { chunk: 2, frame: FrameOutcome::Frame { channel_count: 1 } }),
        DecodeAction::Ignore
    );
    assert_eq!(s.step(DecodeEvent::FormatFatal), DecodeAction::Ignore);
    assert_eq!(s.status(), DecodeStatus::Finished);
    assert_eq!(s.appended().as_slice(), &[1]);
}

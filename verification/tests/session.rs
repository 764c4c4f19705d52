use amptree::timebase::TimeBase;
use amptree::track::{
    AudioFile, DecodeAction, DecodeError, DecodeEvent, ProbeOutcome, StreamParams, TrackHandle,
    TrackMetadata, MINIMUM_FRAMES_IN_BUFFER_COUNT,
};

fn stereo_params(n_frames: u64) -> StreamParams {
    StreamParams {
        track_id: 7,
        channels: Some(2),
        sample_rate: Some(44100),
        time_base: Some((1, 44100)),
        n_frames: Some(n_frames),
    }
}

fn stereo_session(n_frames: u64, volume: f64) -> TrackHandle {
    TrackHandle::open(ProbeOutcome::Probed(stereo_params(n_frames)), volume.to_bits()).unwrap()
}

fn bits(values: &[f64]) -> Vec<u64> {
    values.iter().map(|v| v.to_bits()).collect()
}

/// Pulls one frame from a session whose stream has nothing more to give.
fn serve(session: &mut TrackHandle) -> Option<Vec<u64>> {
    let action = match session.get_sample_buffer() {
        DecodeAction::ReadPacket => session.pull_step(DecodeEvent::EndOfStream),
        other => other,
    };
    match action {
        DecodeAction::Deliver(frame) => Some(frame.samples),
        DecodeAction::Empty => None,
        other => panic!("expected a frame or nothing, got {:?}", other),
    }
}

fn deliver(action: DecodeAction) -> (Vec<f64>, f64) {
    match action {
        DecodeAction::Deliver(frame) => (
            frame.samples.iter().map(|s| f64::from_bits(*s)).collect(),
            f64::from_bits(frame.volume),
        ),
        other => panic!("expected a frame, got {:?}", other),
    }
}

#[test]
fn time_base_refuses_zero_parts() {
    assert!(TimeBase::new(0, 44100).is_none());
    assert!(TimeBase::new(1, 0).is_none());
    assert!(TimeBase::new(0, 0).is_none());
    let tb = TimeBase::new(1, 44100).unwrap();
    assert_eq!(tb.numer(), 1);
    assert_eq!(tb.denom(), 44100);
}

#[test]
fn time_base_converts_ticks_to_whole_seconds() {
    let tb = TimeBase::new(1, 44100).unwrap();
    assert_eq!(tb.calc_seconds(0), 0);
    assert_eq!(tb.calc_seconds(44099), 0);
    assert_eq!(tb.calc_seconds(44100), 1);
    assert_eq!(tb.calc_seconds(5 * 44100), 5);
    assert_eq!(tb.calc_seconds(5 * 44100 + 22050), 5);
    let slow = TimeBase::new(3, 2).unwrap();
    assert_eq!(slow.calc_seconds(5), 7);
}

#[test]
fn time_base_converts_seconds_to_ticks() {
    let tb = TimeBase::new(1, 44100).unwrap();
    assert_eq!(tb.calc_ticks(0), 0);
    assert_eq!(tb.calc_ticks(1), 44100);
    assert_eq!(tb.calc_ticks(5), 220500);
    let slow = TimeBase::new(2, 1).unwrap();
    assert_eq!(slow.calc_ticks(10), 5);
}

#[test]
fn open_reports_each_error() {
    let unreadable = TrackHandle::open(ProbeOutcome::Unreadable, 0);
    assert_eq!(unreadable.err(), Some(DecodeError::UnreadableSource));
    let unsupported = TrackHandle::open(ProbeOutcome::Unsupported, 0);
    assert_eq!(unsupported.err(), Some(DecodeError::UnsupportedFormat));

    let mut p = stereo_params(10);
    p.channels = None;
    assert_eq!(
        TrackHandle::open(ProbeOutcome::Probed(p), 0).err(),
        Some(DecodeError::MissingMetadata)
    );
    let mut p = stereo_params(10);
    p.channels = Some(0);
    assert_eq!(
        TrackHandle::open(ProbeOutcome::Probed(p), 0).err(),
        Some(DecodeError::MissingMetadata)
    );
    let mut p = stereo_params(10);
    p.sample_rate = None;
    assert_eq!(
        TrackHandle::open(ProbeOutcome::Probed(p), 0).err(),
        Some(DecodeError::MissingMetadata)
    );
    let mut p = stereo_params(10);
    p.time_base = None;
    assert_eq!(
        TrackHandle::open(ProbeOutcome::Probed(p), 0).err(),
        Some(DecodeError::MissingMetadata)
    );
    let mut p = stereo_params(10);
    p.time_base = Some((0, 44100));
    assert_eq!(
        TrackHandle::open(ProbeOutcome::Probed(p), 0).err(),
        Some(DecodeError::MissingMetadata)
    );
    let mut p = stereo_params(10);
    p.n_frames = None;
    assert_eq!(
        TrackHandle::open(ProbeOutcome::Probed(p), 0).err(),
        Some(DecodeError::MissingMetadata)
    );
}

#[test]
fn open_captures_the_metadata() {
    let session = stereo_session(220500, 0.5);
    let metadata = session.get_metadata();
    assert_eq!(metadata.channel_count, 2);
    assert_eq!(metadata.sample_rate, 44100);
    assert_eq!(metadata.time_base.numer(), 1);
    assert_eq!(metadata.time_base.denom(), 44100);
    assert_eq!(metadata.frames_count, 220500);
    assert_eq!(metadata.track_id, 7);
    assert_eq!(f64::from_bits(session.get_volume()), 0.5);
    assert_eq!(session.buffered(), 0);
    assert_eq!(session.get_percentage(), (0, 220500));
    assert!(!session.has_finished());
    assert_eq!(session.get_duration(), 5);
    assert_eq!(session.get_played_time(), 0);
}

#[test]
fn audio_file_opens_like_the_session() {
    let file = AudioFile::new(String::from("/music/a.flac"));
    assert_eq!(file.path(), "/music/a.flac");
    let session = file.get_handle(ProbeOutcome::Probed(stereo_params(100)), 1.0f64.to_bits()).unwrap();
    assert_eq!(session.get_metadata().frames_count, 100);
    assert_eq!(
        file.get_handle(ProbeOutcome::Unreadable, 0).err(),
        Some(DecodeError::UnreadableSource)
    );
}

#[test]
fn new_refuses_a_track_without_channels() {
    let tb = TimeBase::new(1, 48000).unwrap();
    let none = TrackHandle::new(TrackMetadata::new(0, 48000, tb, 10, 0), 0);
    assert_eq!(none.err(), Some(DecodeError::MissingMetadata));
    let mono = TrackHandle::new(TrackMetadata::new(1, 48000, tb, 10, 0), 0).unwrap();
    assert_eq!(mono.get_metadata().channel_count, 1);
    assert_eq!(mono.buffered(), 0);
}

#[test]
fn enqueue_splits_the_channels() {
    let mut session = stereo_session(100, 1.0);
    session.enqueue_interleaved(&bits(&[0.1, -0.1, 0.2, -0.2, 0.3, -0.3]));
    assert_eq!(session.buffered(), 3);
    assert_eq!(serve(&mut session).unwrap(), bits(&[0.1, -0.1]));
    assert_eq!(serve(&mut session).unwrap(), bits(&[0.2, -0.2]));
    assert_eq!(serve(&mut session).unwrap(), bits(&[0.3, -0.3]));
    assert_eq!(session.get_percentage(), (3, 100));
    assert!(serve(&mut session).is_none());
    assert_eq!(session.buffered(), 0);
}

#[test]
fn enqueue_pads_a_cut_frame_with_silence() {
    let mut session = stereo_session(100, 1.0);
    session.enqueue_interleaved(&bits(&[0.1, -0.1, 0.2]));
    assert_eq!(session.buffered(), 2);
    assert_eq!(serve(&mut session).unwrap(), bits(&[0.1, -0.1]));
    assert_eq!(serve(&mut session).unwrap(), bits(&[0.2, 0.0]));
    assert_eq!(session.buffered(), 0);
}

#[test]
fn enqueue_of_nothing_changes_nothing() {
    let mut session = stereo_session(100, 1.0);
    session.enqueue_interleaved(&Vec::new());
    assert_eq!(session.buffered(), 0);
    session.enqueue_interleaved(&bits(&[0.5, 0.25]));
    session.enqueue_interleaved(&Vec::new());
    assert_eq!(session.buffered(), 1);
}

#[test]
fn every_frame_has_one_sample_per_channel() {
    let tb = TimeBase::new(1, 8000).unwrap();
    for channels in 1usize..=6 {
        let mut session =
            TrackHandle::new(TrackMetadata::new(channels, 8000, tb, 1000, 0), 0).unwrap();
        let samples: Vec<u64> = (0..25u64).collect();
        session.enqueue_interleaved(&samples);
        let expected_frames = (25 + channels - 1) / channels;
        assert_eq!(session.buffered(), expected_frames);
        let mut served = 0;
        while session.buffered() > 0 {
            let frame = serve(&mut session).unwrap();
            assert_eq!(frame.len(), channels);
            for (c, sample) in frame.iter().enumerate() {
                let index = served * channels + c;
                let expected = if index < 25 { index as u64 } else { 0 };
                assert_eq!(*sample, expected);
            }
            served += 1;
        }
        assert_eq!(served, expected_frames);
    }
}

#[test]
fn get_sample_buffer_counts_the_frame_it_returns() {
    let mut session = stereo_session(100_000, 1.0);
    let packet: Vec<u64> = (0..2 * 1028u64).collect();
    session.enqueue_interleaved(&packet);
    match session.get_sample_buffer() {
        DecodeAction::Deliver(frame) => assert_eq!(frame.samples, vec![0, 1]),
        other => panic!("expected a frame, got {:?}", other),
    }
    assert_eq!(session.get_percentage(), (1, 100_000));
    assert_eq!(session.buffered(), 1027);
}

#[test]
fn get_sample_buffer_asks_for_a_packet_below_the_mark() {
    let mut session = stereo_session(100_000, 1.0);
    let packet: Vec<u64> = (0..2 * 1027u64).collect();
    session.enqueue_interleaved(&packet);
    assert!(matches!(session.get_sample_buffer(), DecodeAction::ReadPacket));
    assert_eq!(session.get_percentage(), (0, 100_000));
    assert_eq!(session.buffered(), 1027);
    session.enqueue_interleaved(&vec![7, 8]);
    assert!(matches!(session.get_sample_buffer(), DecodeAction::Deliver(_)));
}

#[test]
fn get_sample_buffer_on_a_finished_session_changes_nothing() {
    let mut session = stereo_session(2, 1.0);
    session.enqueue_interleaved(&bits(&[0.5, 0.25, 0.75, 0.125, 1.0, 1.0]));
    assert!(serve(&mut session).is_some());
    assert!(serve(&mut session).is_some());
    assert!(session.has_finished());
    assert!(matches!(session.get_sample_buffer(), DecodeAction::Deliver(_)));
    assert_eq!(session.get_percentage(), (3, 2));
    assert!(matches!(session.get_sample_buffer(), DecodeAction::Empty));
    assert!(matches!(session.get_sample_buffer(), DecodeAction::Empty));
    assert_eq!(session.get_percentage(), (3, 2));
    assert_eq!(session.buffered(), 0);
}

#[test]
fn a_stream_that_ends_early_still_reaches_its_end() {
    let mut session = stereo_session(10, 1.0);
    let mut delivered = 0;
    let mut pulls = 0;
    let mut decoded = false;
    while !session.has_finished() {
        let mut action = session.pull_step(DecodeEvent::Pull);
        loop {
            action = match action {
                DecodeAction::ReadPacket if !decoded => session.pull_step(DecodeEvent::Packet(7)),
                DecodeAction::ReadPacket => session.pull_step(DecodeEvent::EndOfStream),
                DecodeAction::DecodePacket => {
                    decoded = true;
                    session.pull_step(DecodeEvent::Decoded((0..8).collect()))
                }
                DecodeAction::Deliver(frame) => {
                    assert_eq!(frame.samples, vec![2 * delivered, 2 * delivered + 1]);
                    delivered += 1;
                    break;
                }
                DecodeAction::Empty => break,
            };
        }
        pulls += 1;
        assert_eq!(session.get_percentage().0, pulls);
    }
    assert_eq!(delivered, 4);
    assert_eq!(pulls, 10);
}

#[test]
fn increment_time_counts_and_saturates() {
    let mut session = stereo_session(2, 1.0);
    session.increment_time();
    assert_eq!(session.get_percentage().0, 1);
    assert!(!session.has_finished());
    session.increment_time();
    assert!(session.has_finished());
    session.increment_time();
    assert_eq!(session.get_percentage().0, 3);
    assert!(session.has_finished());
}

#[test]
fn pull_asks_for_a_packet_below_the_low_water_mark() {
    let mut session = stereo_session(100_000, 1.0);
    assert!(session.needs_to_fetch_more_samples());
    assert!(matches!(session.pull_step(DecodeEvent::Pull), DecodeAction::ReadPacket));
    assert!(matches!(session.pull_step(DecodeEvent::Packet(3)), DecodeAction::ReadPacket));
    assert!(matches!(session.pull_step(DecodeEvent::Packet(7)), DecodeAction::DecodePacket));
    assert!(matches!(session.pull_step(DecodeEvent::Malformed), DecodeAction::ReadPacket));
    assert!(matches!(session.pull_step(DecodeEvent::Packet(7)), DecodeAction::DecodePacket));
    let action = session.pull_step(DecodeEvent::Decoded(bits(&[0.5, 0.25, 0.75, 0.125])));
    assert_eq!(deliver(action), (vec![0.5, 0.25], 1.0));
    assert_eq!(session.buffered(), 1);
}

#[test]
fn pull_serves_without_refill_at_the_low_water_mark() {
    let mut session = stereo_session(100_000, 1.0);
    assert_eq!(MINIMUM_FRAMES_IN_BUFFER_COUNT, 1028);
    let packet: Vec<u64> = (0..2 * 1028u64).collect();
    session.enqueue_interleaved(&packet);
    assert!(!session.needs_to_fetch_more_samples());
    let action = session.pull_step(DecodeEvent::Pull);
    assert!(matches!(action, DecodeAction::Deliver(_)));
    assert_eq!(session.buffered(), 1027);
    assert!(session.needs_to_fetch_more_samples());
    assert!(matches!(session.pull_step(DecodeEvent::Pull), DecodeAction::ReadPacket));
}

#[test]
fn refill_ends_at_the_end_of_the_stream_or_on_failure() {
    let mut session = stereo_session(100_000, 1.0);
    session.enqueue_interleaved(&bits(&[0.5, 0.25]));
    assert!(matches!(session.pull_step(DecodeEvent::Pull), DecodeAction::ReadPacket));
    let action = session.pull_step(DecodeEvent::EndOfStream);
    assert_eq!(deliver(action), (vec![0.5, 0.25], 1.0));
    assert!(matches!(session.pull_step(DecodeEvent::Pull), DecodeAction::ReadPacket));
    assert!(matches!(session.pull_step(DecodeEvent::Packet(7)), DecodeAction::DecodePacket));
    assert!(matches!(session.pull_step(DecodeEvent::Failed), DecodeAction::Empty));
    assert!(matches!(session.pull_step(DecodeEvent::EndOfStream), DecodeAction::Empty));
    assert_eq!(session.get_percentage().0, 3);
    assert_eq!(session.buffered(), 0);
}

#[test]
fn finished_session_pulls_empty_without_refill() {
    let mut session = stereo_session(1, 1.0);
    session.enqueue_interleaved(&bits(&[0.5, 0.25]));
    assert!(matches!(session.pull_step(DecodeEvent::Pull), DecodeAction::ReadPacket));
    assert!(matches!(session.pull_step(DecodeEvent::EndOfStream), DecodeAction::Deliver(_)));
    assert!(session.has_finished());
    assert!(!session.needs_to_fetch_more_samples());
    assert!(matches!(session.pull_step(DecodeEvent::Pull), DecodeAction::Empty));
    assert_eq!(session.get_percentage(), (1, 1));
}

#[test]
fn seek_moves_the_counter_and_drops_what_was_queued() {
    let mut session = stereo_session(220500, 1.0);
    session.enqueue_interleaved(&bits(&[9.0, 9.0, 8.0, 8.0, 7.0, 7.0]));
    assert!(serve(&mut session).is_some());
    assert_eq!(session.buffered(), 2);
    session.seek(3);
    assert_eq!(session.buffered(), 0);
    assert_eq!(session.get_percentage(), (3 * 44100, 220500));
    assert_eq!(session.get_played_time(), 3);
    assert!(matches!(session.pull_step(DecodeEvent::Pull), DecodeAction::ReadPacket));
    assert!(matches!(session.pull_step(DecodeEvent::Packet(7)), DecodeAction::DecodePacket));
    let fresh: Vec<f64> = (0..2 * 1100).map(|i| 0.001 * i as f64).collect();
    let action = session.pull_step(DecodeEvent::Decoded(bits(&fresh)));
    assert_eq!(deliver(action).0, vec![0.0, 0.001]);
    for k in 1..1100usize {
        let action = match session.pull_step(DecodeEvent::Pull) {
            DecodeAction::ReadPacket => session.pull_step(DecodeEvent::EndOfStream),
            other => other,
        };
        let (samples, _) = deliver(action);
        assert_eq!(samples, vec![fresh[2 * k], fresh[2 * k + 1]]);
        assert!(samples.iter().all(|s| *s != 9.0 && *s != 8.0 && *s != 7.0));
    }
}

#[test]
fn seek_lands_on_the_second() {
    let mut session = stereo_session(5 * 44100 + 22050, 0.5);
    session.seek(2);
    assert_eq!(session.get_percentage().0, 88200);
    assert_eq!(session.get_status().played_secs, 2);
    assert_eq!(f64::from_bits(session.get_volume()), 0.5);
}

#[test]
fn a_track_runs_until_its_last_frame() {
    let half: u64 = 5 * 44100 + 22050;
    let session = stereo_session(half, 1.0);
    assert_eq!(session.get_duration(), 5);
    assert!(session.is_within(0));
    assert!(session.is_within(5));
    assert!(!session.is_within(6));
    let whole = stereo_session(5 * 44100, 1.0);
    assert!(whole.is_within(4));
    assert!(!whole.is_within(5));
    let one_more = stereo_session(5 * 44100 + 1, 1.0);
    assert!(one_more.is_within(5));
    let empty = stereo_session(0, 1.0);
    assert!(!empty.is_within(0));
    let slow = TrackHandle::new(
        TrackMetadata::new(1, 8000, TimeBase::new(3, 2).unwrap(), 5, 0),
        0,
    )
    .unwrap();
    assert!(slow.is_within(7));
    assert!(!slow.is_within(8));
    assert!(stereo_session(u64::MAX, 1.0).is_within(usize::MAX / 44100 - 1));
}

#[test]
fn seek_to_the_start_rewinds() {
    let mut session = stereo_session(220500, 1.0);
    session.enqueue_interleaved(&bits(&[0.1, 0.1, 0.2, 0.2]));
    session.pull_step(DecodeEvent::EndOfStream);
    session.pull_step(DecodeEvent::EndOfStream);
    assert_eq!(session.get_percentage().0, 2);
    session.seek(0);
    assert_eq!(session.get_percentage().0, 0);
    assert_eq!(session.buffered(), 0);
}

#[test]
fn status_reports_progress() {
    let mut session = stereo_session(220500, 0.25);
    let start = session.get_status();
    assert_eq!(start.played_frames, 0);
    assert_eq!(start.total_frames, 220500);
    assert_eq!(start.total_duration_secs, 5);
    assert_eq!(start.played_secs, 0);
    assert_eq!(f64::from_bits(start.volume), 0.25);
    session.seek(2);
    let action = session.pull_step(DecodeEvent::Decoded(bits(&[0.1, 0.1])));
    assert!(matches!(action, DecodeAction::Deliver(_)));
    let later = session.get_status();
    assert_eq!(later.played_frames, 2 * 44100 + 1);
    assert_eq!(later.played_secs, 2);
    assert_eq!(later.total_duration_secs, 5);
    let share = later.played_frames as f64 / later.total_frames as f64;
    assert!((share - 0.4).abs() < 0.001);
}

#[test]
fn total_duration_never_changes() {
    let mut session = stereo_session(220500, 1.0);
    let total = session.get_status().total_duration_secs;
    let mut last_played = 0;
    for round in 0..50u64 {
        session.enqueue_interleaved(&vec![round; 64]);
        for _ in 0..20 {
            session.pull_step(DecodeEvent::EndOfStream);
            let status = session.get_status();
            assert_eq!(status.total_duration_secs, total);
            assert_eq!(session.get_duration(), total);
            assert!(status.played_frames >= last_played);
            last_played = status.played_frames;
        }
        session.update_volume(round);
    }
    session.seek(4);
    assert_eq!(session.get_status().total_duration_secs, total);
    session.seek(1);
    assert_eq!(session.get_status().total_duration_secs, total);
    assert_eq!(session.get_status().played_secs, 1);
}

#[test]
fn volume_applies_to_the_next_frame() {
    let mut session = stereo_session(1000, 1.0);
    session.enqueue_interleaved(&bits(&[0.5, -0.5, 0.25, -0.25, 0.125, -0.125]));
    let (samples, volume) = deliver(session.pull_step(DecodeEvent::EndOfStream));
    assert_eq!(samples.iter().map(|s| s * volume).collect::<Vec<f64>>(), vec![0.5, -0.5]);
    session.update_volume(0.0f64.to_bits());
    assert_eq!(f64::from_bits(session.get_volume()), 0.0);
    let (samples, volume) = deliver(session.pull_step(DecodeEvent::EndOfStream));
    assert_eq!(samples, vec![0.25, -0.25]);
    assert_eq!(volume, 0.0);
    for sample in samples {
        assert_eq!(sample * volume, 0.0);
    }
    assert_eq!(session.get_percentage().0, 2);
    session.update_volume(2.0f64.to_bits());
    let (samples, volume) = deliver(session.pull_step(DecodeEvent::EndOfStream));
    assert_eq!(samples.iter().map(|s| s * volume).collect::<Vec<f64>>(), vec![0.25, -0.25]);
    assert_eq!(session.get_percentage().0, 3);
}

#[test]
fn five_seconds_of_stereo_play_in_220500_frames() {
    let total: u64 = 5 * 44100;
    let mut session = stereo_session(total, 1.0);
    let packet_frames: u64 = 1152;
    let mut decoded: u64 = 0;
    let mut pulled: u64 = 0;
    while !session.has_finished() {
        let mut action = session.pull_step(DecodeEvent::Pull);
        loop {
            action = match action {
                DecodeAction::ReadPacket => {
                    if decoded < total {
                        session.pull_step(DecodeEvent::Packet(7))
                    } else {
                        session.pull_step(DecodeEvent::EndOfStream)
                    }
                }
                DecodeAction::DecodePacket => {
                    let frames = packet_frames.min(total - decoded);
                    let samples: Vec<u64> = (0..2 * frames).map(|i| 2 * decoded + i).collect();
                    decoded += frames;
                    session.pull_step(DecodeEvent::Decoded(samples))
                }
                DecodeAction::Deliver(frame) => {
                    assert_eq!(frame.samples, vec![2 * pulled, 2 * pulled + 1]);
                    pulled += 1;
                    break;
                }
                DecodeAction::Empty => panic!("starved at frame {}", pulled),
            };
        }
        assert_eq!(session.has_finished(), pulled >= total);
    }
    assert_eq!(pulled, 5 * 44100);
    assert_eq!(session.get_played_time(), 5);
    assert_eq!(session.buffered(), 0);
    assert!(matches!(session.pull_step(DecodeEvent::Pull), DecodeAction::Empty));
}

use ferratone::offline::samples_in_bytes;
use ferratone::offline::OfflineSink;
use ferratone::sink::duration_to_sample_offset;
use ferratone::sink::plan_construction;
use ferratone::sink::ConstructPlan;
use ferratone::sink::Sink;
use ferratone::sink::SinkBuildError;
use ferratone::sink::SinkCore;
use ferratone::square::Square;

fn test_sink() -> OfflineSink<Square> {
    OfflineSink::new(Square::new(1, 0, 4), 48000)
}

#[test]
fn play_at_half_second_at_48000_starts_at_24000() {
    let mut sink = test_sink();
    sink.play_at(0, 500_000_000).unwrap();
    assert_eq!(sink.core.sample_offset, 24000);
    sink.play().unwrap();
    assert_eq!(sink.core.sample_offset, 24000);
    assert!(sink.core.playing);
}

#[test]
fn pause_then_play_resumes_at_exact_offset() {
    let mut sink = test_sink();
    sink.play().unwrap();
    sink.request(123);
    assert_eq!(sink.core.sample_offset, 123);
    sink.pause().unwrap();
    assert!(!sink.core.playing);
    sink.play().unwrap();
    assert!(sink.core.playing);
    assert_eq!(sink.core.sample_offset, 123);
}

#[test]
fn controls_are_idempotent() {
    let mut sink = test_sink();
    sink.play().unwrap();
    sink.play().unwrap();
    assert!(sink.core.playing);
    sink.pause().unwrap();
    sink.pause().unwrap();
    assert!(!sink.core.playing);
}

#[test]
fn request_advances_offset_by_total() {
    let mut sink = test_sink();
    sink.play().unwrap();
    let out = sink.request(5000);
    assert_eq!(out.len(), 5000);
    assert_eq!(sink.core.sample_offset, 5000);
    sink.request(100);
    assert_eq!(sink.core.sample_offset, 5100);
}

#[test]
fn offset_wraps_on_overflow() {
    let mut sink = test_sink();
    sink.core.sample_offset = u64::MAX;
    sink.request(3);
    assert_eq!(sink.core.sample_offset, 2);
}

#[test]
fn request_pulls_the_generator_waveform() {
    let mut sink = OfflineSink::new(Square::new(8, 2, 2), 48000);
    sink.play().unwrap();
    let first = sink.request(3);
    let second = sink.request(5);
    assert_eq!(first, vec![8, 8, 2]);
    assert_eq!(second, vec![2, 8, 8, 2, 2]);
}

#[test]
fn split_requests_equal_one_request() {
    let mut split = OfflineSink::new(Square::new(8, 2, 3), 48000);
    split.play().unwrap();
    let mut got = split.request(2900);
    got.extend_from_slice(&split.request(2100));

    let mut whole = OfflineSink::new(Square::new(8, 2, 3), 48000);
    whole.play().unwrap();
    let expected = whole.request(5000);

    assert_eq!(got, expected);
    assert_eq!(split.core.sample_offset, whole.core.sample_offset);
}

#[test]
fn duration_conversion_rounds_to_nearest_sample() {
    assert_eq!(duration_to_sample_offset(1, 0, 44100), 44100);
    assert_eq!(duration_to_sample_offset(0, 0, 48000), 0);
    // 0.0005 s at 1000 samples per second is half a sample: rounds up
    assert_eq!(duration_to_sample_offset(0, 500_000, 1000), 1);
    // just under half a sample: rounds down
    assert_eq!(duration_to_sample_offset(0, 499_999, 1000), 0);
    assert_eq!(duration_to_sample_offset(2, 750_000_000, 8000), 22000);
}

#[test]
fn byte_counts_convert_to_whole_samples() {
    assert_eq!(samples_in_bytes(8192), 2048);
    assert_eq!(samples_in_bytes(7), 1);
    assert_eq!(samples_in_bytes(0), 0);
}

#[test]
fn unavailable_subsystem_fails_without_acquiring() {
    let plan = plan_construction(false, 48000, false);
    assert_eq!(
        plan,
        ConstructPlan::Fail {
            error: SinkBuildError::SubsystemUnavailable,
            release_subsystem: false,
        }
    );
}

#[test]
fn failed_stream_open_rolls_back_the_subsystem() {
    let plan = plan_construction(true, 48000, false);
    assert_eq!(
        plan,
        ConstructPlan::Fail {
            error: SinkBuildError::StreamOpenFailed,
            release_subsystem: true,
        }
    );
}

#[test]
fn oversized_rate_rolls_back_the_subsystem() {
    let plan = plan_construction(true, 0x8000_0000, false);
    assert_eq!(
        plan,
        ConstructPlan::Fail {
            error: SinkBuildError::SampleRateTooLarge,
            release_subsystem: true,
        }
    );
}

#[test]
fn successful_construction_starts_paused_at_zero() {
    let plan = plan_construction(true, 48000, true);
    assert_eq!(
        plan,
        ConstructPlan::Ready {
            core: SinkCore { sample_offset: 0, sample_rate: 48000, playing: false },
        }
    );
}

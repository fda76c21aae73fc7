use std::time::SystemTime;
use std::time::UNIX_EPOCH;

use timestamp_emitter::clock::epoch_nanos;
use timestamp_emitter::latch::AppData;
use timestamp_emitter::stream::TimestampStream;

const NANOS_PER_SEC: u128 = 1_000_000_000;

#[test]
fn activation_succeeds_once_then_fails() {
    let mut data = AppData::new();
    assert!(data.try_activate().is_ok());
    let second = data.try_activate();
    assert_eq!(second, Err("Emitter already started".to_string()));
}

#[test]
fn exactly_one_of_many_activations_succeeds() {
    let mut data = AppData::new();
    let outcomes: Vec<bool> = (0..5).map(|_| data.try_activate().is_ok()).collect();
    assert_eq!(outcomes.iter().filter(|ok| **ok).count(), 1);
    assert!(outcomes[0]);
    for later in &outcomes[1..] {
        assert!(!later);
    }
}

#[test]
fn epoch_nanos_exact_values() {
    assert_eq!(epoch_nanos(0, 0), 0);
    assert_eq!(epoch_nanos(0, 1), 1);
    assert_eq!(epoch_nanos(1, 234), 1_000_000_234);
    assert_eq!(epoch_nanos(1_700_000_000, 999_999_999), 1_700_000_000_999_999_999);
}

#[test]
fn epoch_nanos_largest_reading() {
    let expected = u64::MAX as u128 * NANOS_PER_SEC + 999_999_999;
    assert_eq!(epoch_nanos(u64::MAX, 999_999_999), expected);
}

#[test]
fn published_values_increase_with_clock() {
    let mut stream = TimestampStream::new();
    let readings = [(1u64, 0u32), (1, 7), (1, 999_999_999), (2, 0), (5, 123)];
    let mut published: Vec<u128> = Vec::new();
    for (secs, subsec) in readings {
        published.push(stream.publish_next(secs, subsec));
    }
    for pair in published.windows(2) {
        assert!(pair[0] < pair[1]);
    }
    assert_eq!(stream.last_emitted(), Some(5_000_000_123));
}

#[test]
fn activation_then_stream_of_increasing_values() {
    let mut data = AppData::new();
    assert_eq!(data.try_activate(), Ok(()));
    assert_eq!(
        data.try_activate(),
        Err("Emitter already started".to_string())
    );

    let start = SystemTime::now().duration_since(UNIX_EPOCH).unwrap();
    let mut stream = TimestampStream::new();
    let mut previous: Option<u128> = None;
    for tick in 0..3u32 {
        let value = stream.publish_next(start.as_secs(), start.subsec_nanos() / 2 + tick);
        if let Some(p) = previous {
            assert!(p < value);
        }
        previous = Some(value);
    }
    let first_expected = start.as_secs() as u128 * NANOS_PER_SEC + (start.subsec_nanos() / 2) as u128;
    assert!(stream.last_emitted().unwrap() >= first_expected);
    assert!(stream.last_emitted().unwrap() < first_expected + NANOS_PER_SEC);
}

#[test]
fn no_activation_publishes_nothing() {
    let data = AppData::new();
    assert!(!data.is_started());
    let stream = TimestampStream::new();
    assert_eq!(stream.last_emitted(), None);
}

#[test]
fn step_publishes_the_sampled_reading() {
    let mut stream = TimestampStream::new();
    assert_eq!(stream.step(Some((2, 7))), Some(2 * NANOS_PER_SEC + 7));
    assert_eq!(stream.last_emitted(), Some(2 * NANOS_PER_SEC + 7));
}

#[test]
fn step_on_clock_before_epoch_publishes_nothing() {
    let mut stream = TimestampStream::new();
    assert_eq!(stream.step(None), None);
    assert_eq!(stream.last_emitted(), None);
}

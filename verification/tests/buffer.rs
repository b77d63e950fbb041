use load_dashboard::buffer::SampleBuffer;
use load_dashboard::generator::SampleGenerator;
use load_dashboard::sample::{Sample, VALUE_RANGE_MILLI};

#[test]
fn buffer_starts_empty() {
    let buffer = SampleBuffer::new();
    assert_eq!(buffer.len(), 0);
    assert_eq!(buffer.snapshot(), vec![]);
}

#[test]
fn append_preserves_order() {
    let mut buffer = SampleBuffer::new();
    let first = Sample { elapsed_ms: 10, value_milli: 4_200 };
    let second = Sample { elapsed_ms: 20, value_milli: 100 };
    let third = Sample { elapsed_ms: 20, value_milli: 9_999 };
    buffer.append(first);
    buffer.append(second);
    buffer.append(third);
    assert_eq!(buffer.len(), 3);
    assert_eq!(buffer.snapshot(), vec![first, second, third]);
}

#[test]
fn snapshot_sees_an_append_whole_or_not_at_all() {
    let mut buffer = SampleBuffer::new();
    let first = Sample { elapsed_ms: 5, value_milli: 1_000 };
    let second = Sample { elapsed_ms: 9, value_milli: 2_000 };
    buffer.append(first);
    let before = buffer.snapshot();
    buffer.append(second);
    let after = buffer.snapshot();
    assert_eq!(before, vec![first]);
    assert_eq!(after, vec![first, second]);
    assert_eq!(&after[..before.len()], &before[..]);
}

#[test]
fn snapshot_is_a_copy_unmoved_by_later_appends() {
    let mut buffer = SampleBuffer::new();
    buffer.append(Sample { elapsed_ms: 1, value_milli: 1 });
    let snapshot = buffer.snapshot();
    buffer.append(Sample { elapsed_ms: 2, value_milli: 2 });
    assert_eq!(snapshot.len(), 1);
    assert_eq!(buffer.len(), 2);
}

#[test]
fn one_sample_per_tick_in_chronological_order() {
    let mut buffer = SampleBuffer::new();
    let mut generator = SampleGenerator::new();
    let clock = [100, 250, 250, 900, 1_200];
    for elapsed_ms in clock {
        generator.tick(&mut buffer, elapsed_ms);
    }
    let snapshot = buffer.snapshot();
    assert_eq!(snapshot.len(), clock.len());
    for (sample, elapsed_ms) in snapshot.iter().zip(clock) {
        assert_eq!(sample.elapsed_ms, elapsed_ms);
    }
    for pair in snapshot.windows(2) {
        assert!(pair[0].elapsed_ms <= pair[1].elapsed_ms);
    }
}

#[test]
fn three_ticks_at_fixed_cadence() {
    let mut buffer = SampleBuffer::new();
    let mut generator = SampleGenerator::new();
    generator.tick(&mut buffer, 300);
    generator.tick(&mut buffer, 600);
    generator.tick(&mut buffer, 900);
    let snapshot = buffer.snapshot();
    assert_eq!(snapshot.len(), 3);
    assert_eq!(snapshot[0].elapsed_ms, 300);
    assert_eq!(snapshot[1].elapsed_ms, 600);
    assert_eq!(snapshot[2].elapsed_ms, 900);
    for sample in snapshot {
        assert!(sample.value_milli < VALUE_RANGE_MILLI);
    }
}

#[test]
fn generated_values_stay_inside_the_range() {
    let mut buffer = SampleBuffer::new();
    let mut generator = SampleGenerator::new();
    for elapsed_ms in 0..500 {
        generator.tick(&mut buffer, elapsed_ms);
    }
    for sample in buffer.snapshot() {
        assert!(sample.value_milli < VALUE_RANGE_MILLI);
    }
}

use oscilloscope::waveform::{cycle_position, sample, Reading, WaveformType};

const A: u32 = 5000;
const F: u32 = 250_000;
const PEAK_PV: i64 = 5_000_000_000_000;

#[test]
fn start_of_cycle_for_each_kind() {
    assert_eq!(sample(WaveformType::Sine, A, F, 0), Reading::Sine { amplitude_mv: A, position: 0 });
    assert_eq!(sample(WaveformType::Square, A, F, 0), Reading::Picovolts(PEAK_PV));
    assert_eq!(sample(WaveformType::Triangle, A, F, 0), Reading::Picovolts(0));
}

#[test]
fn cycle_position_is_exact_and_wraps() {
    assert_eq!(cycle_position(F, 1000), 250_000_000);
    assert_eq!(cycle_position(F, 4000), 0);
    assert_eq!(cycle_position(F, 5000), 250_000_000);
    assert_eq!(cycle_position(F, -1), 999_750_000);
    assert_eq!(cycle_position(100, 1), 100);
    assert_eq!(cycle_position(u32::MAX, i128::MAX) < 1_000_000_000, true);
}

#[test]
fn square_is_positive_on_the_first_half_including_both_crossings() {
    assert_eq!(sample(WaveformType::Square, A, F, 1000), Reading::Picovolts(PEAK_PV));
    assert_eq!(sample(WaveformType::Square, A, F, 2000), Reading::Picovolts(PEAK_PV));
    assert_eq!(sample(WaveformType::Square, A, F, 2001), Reading::Picovolts(-PEAK_PV));
    assert_eq!(sample(WaveformType::Square, A, F, 3999), Reading::Picovolts(-PEAK_PV));
    assert_eq!(sample(WaveformType::Square, A, F, -1), Reading::Picovolts(-PEAK_PV));
}

#[test]
fn triangle_levels_follow_the_sine_phase() {
    assert_eq!(sample(WaveformType::Triangle, A, F, 500), Reading::Picovolts(PEAK_PV / 2));
    assert_eq!(sample(WaveformType::Triangle, A, F, 1000), Reading::Picovolts(PEAK_PV));
    assert_eq!(sample(WaveformType::Triangle, A, F, 2000), Reading::Picovolts(0));
    assert_eq!(sample(WaveformType::Triangle, A, F, 3000), Reading::Picovolts(-PEAK_PV));
    assert_eq!(sample(WaveformType::Triangle, A, F, -1000), Reading::Picovolts(-PEAK_PV));
    assert_eq!(sample(WaveformType::Triangle, 100, F, 1), Reading::Picovolts(100 * 1_000_000));
}

#[test]
fn sine_reading_carries_amplitude_and_position() {
    assert_eq!(
        sample(WaveformType::Sine, A, F, 1000),
        Reading::Sine { amplitude_mv: A, position: 250_000_000 }
    );
}

#[test]
fn one_period_later_each_kind_reads_the_same() {
    // 250 Hz: one period is 4000 microseconds.
    for kind in [WaveformType::Sine, WaveformType::Square, WaveformType::Triangle] {
        for t in [-7777i128, -1, 0, 1, 333, 1999, 2000, 123_456_789] {
            assert_eq!(sample(kind, A, F, t), sample(kind, A, F, t + 4000));
            assert_eq!(sample(kind, A, F, t), sample(kind, A, F, t + 3 * 4000));
        }
    }
    // 0.1 Hz: one period is ten seconds.
    assert_eq!(
        sample(WaveformType::Triangle, A, 100, 2_500_001),
        sample(WaveformType::Triangle, A, 100, 12_500_001)
    );
}

#[test]
fn doubling_amplitude_doubles_each_reading() {
    for t in [-3000i128, -1, 0, 1, 500, 1000, 2001, 3500] {
        match (sample(WaveformType::Triangle, A, F, t), sample(WaveformType::Triangle, 2 * A, F, t)) {
            (Reading::Picovolts(v), Reading::Picovolts(w)) => assert_eq!(w, 2 * v),
            _ => panic!("triangle readings are exact"),
        }
        match (sample(WaveformType::Square, A, F, t), sample(WaveformType::Square, 2 * A, F, t)) {
            (Reading::Picovolts(v), Reading::Picovolts(w)) => assert_eq!(w, 2 * v),
            _ => panic!("square readings are exact"),
        }
        match (sample(WaveformType::Sine, A, F, t), sample(WaveformType::Sine, 2 * A, F, t)) {
            (Reading::Sine { amplitude_mv: a, position: p }, Reading::Sine { amplitude_mv: b, position: q }) => {
                assert_eq!(b, 2 * a);
                assert_eq!(p, q);
            }
            _ => panic!("sine readings carry their amplitude"),
        }
    }
}

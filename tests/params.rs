use oscilloscope::params::WaveformParameters;
use oscilloscope::waveform::{Reading, WaveformType};

#[test]
fn defaults() {
    let p = WaveformParameters::new();
    assert_eq!(p.freq_mhz, 250_000);
    assert_eq!(p.amplitude_mv, 5000);
    assert_eq!(p.us_per_div, 1000);
    assert_eq!(p.mv_per_div, 1000);
    assert_eq!(p.kind, WaveformType::Sine);
    assert_eq!(p.zoom, 1000);
    assert_eq!((p.pan_x_upx, p.pan_y_upx), (0, 0));
    assert_eq!(WaveformParameters::default(), p);
}

#[test]
fn setters_clamp_to_the_control_ranges() {
    let mut p = WaveformParameters::new();
    p.set_frequency(0);
    assert_eq!(p.freq_mhz, 100);
    p.set_frequency(600_000);
    assert_eq!(p.freq_mhz, 500_000);
    p.set_frequency(1234);
    assert_eq!(p.freq_mhz, 1234);
    p.set_amplitude(1);
    assert_eq!(p.amplitude_mv, 100);
    p.set_amplitude(u32::MAX);
    assert_eq!(p.amplitude_mv, 200_000);
    p.set_time_per_div(50);
    assert_eq!(p.us_per_div, 100);
    p.set_volts_per_div(300_000);
    assert_eq!(p.mv_per_div, 200_000);
    p.set_zoom(20_000);
    assert_eq!(p.zoom, 10_000);
    p.set_kind(WaveformType::Triangle);
    assert_eq!(p.kind, WaveformType::Triangle);
    assert_eq!(p.freq_mhz, 1234);
}

#[test]
fn wheel_zoom_steps_and_stops() {
    let mut p = WaveformParameters::new();
    p.zoom_in();
    assert_eq!(p.zoom, 1100);
    p.zoom_out();
    assert_eq!(p.zoom, 1000);
    p.zoom_out();
    assert_eq!(p.zoom, 1000);
    p.set_zoom(9500);
    p.zoom_in();
    assert_eq!(p.zoom, 10_000);
    p.zoom_in();
    assert_eq!(p.zoom, 10_000);
}

#[test]
fn pan_accumulates_saturates_and_resets() {
    let mut p = WaveformParameters::new();
    p.pan_by(1_500_000, -250_000);
    p.pan_by(500_000, 0);
    assert_eq!((p.pan_x_upx, p.pan_y_upx), (2_000_000, -250_000));
    p.pan_by(i64::MAX, i64::MIN);
    assert_eq!((p.pan_x_upx, p.pan_y_upx), (i64::MAX, i64::MIN));
    p.reset_pan();
    assert_eq!((p.pan_x_upx, p.pan_y_upx), (0, 0));
}

#[test]
fn waveform_buffer_spans_ten_divisions_around_zero() {
    let p = WaveformParameters::new();
    let buf = p.generate_waveform(512);
    assert_eq!(buf.len(), 512);
    assert_eq!(buf[256], Reading::Sine { amplitude_mv: 5000, position: 0 });
    // entry 0 is at -256 * 10000 / 511 microseconds, rounded down: -5010
    assert_eq!(buf[0], p.sample(-5010));
    // entry 511 is at 255 * 10000 / 511 microseconds, rounded down: 4990
    assert_eq!(buf[511], p.sample(4990));
    let mut sq = p;
    sq.set_kind(WaveformType::Square);
    let two = sq.generate_waveform(2);
    assert_eq!(two, vec![sq.sample(-10_000), sq.sample(0)]);
}

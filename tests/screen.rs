use oscilloscope::params::WaveformParameters;
use oscilloscope::screen::{cell_size, origin_x, origin_y, time_at, trace, x_of_time, y_of_voltage, Viewport};
use oscilloscope::waveform::Reading;

fn view() -> Viewport {
    Viewport { left: 0, top: 0, width: 800, height: 600 }
}

#[test]
fn cell_is_square_and_fits_ten_by_eight() {
    let p = WaveformParameters::new();
    assert_eq!(cell_size(&view(), &p), 75_000_000);
    let wide = Viewport { left: 0, top: 0, width: 500, height: 600 };
    assert_eq!(cell_size(&wide, &p), 50_000_000);
    let mut z = p;
    z.set_zoom(2500);
    assert_eq!(cell_size(&view(), &z), 187_500_000);
}

#[test]
fn origin_is_the_centre_moved_by_the_pan() {
    let mut p = WaveformParameters::new();
    let v = Viewport { left: 10, top: 20, width: 800, height: 600 };
    assert_eq!(origin_x(&v, &p), 410_000_000);
    assert_eq!(origin_y(&v, &p), 320_000_000);
    p.pan_by(-3_000_000, 500_000);
    assert_eq!(origin_x(&v, &p), 407_000_000);
    assert_eq!(origin_y(&v, &p), 320_500_000);
}

#[test]
fn columns_map_to_times() {
    let p = WaveformParameters::new();
    assert_eq!(time_at(&view(), &p, 400_000_000), 0);
    assert_eq!(time_at(&view(), &p, 475_000_000), 1000);
    assert_eq!(time_at(&view(), &p, 325_000_000), -1000);
    assert_eq!(time_at(&view(), &p, 399_000_000), -14);
    assert_eq!(time_at(&view(), &p, 0), -5334);
}

#[test]
fn times_map_to_columns() {
    let p = WaveformParameters::new();
    assert_eq!(x_of_time(&view(), &p, 0), 400_000_000);
    assert_eq!(x_of_time(&view(), &p, 1000), 475_000_000);
    assert_eq!(x_of_time(&view(), &p, -1), 399_925_000);
}

#[test]
fn time_to_column_and_back_is_within_two_microseconds() {
    let mut p = WaveformParameters::new();
    for zoom in [1000u32, 1234, 10_000] {
        for us in [100u32, 777, 200_000] {
            for pan in [-9_999_999i64, 0, 123_456] {
                p.set_zoom(zoom);
                p.set_time_per_div(us);
                p.reset_pan();
                p.pan_by(pan, 0);
                for t in [-1_000_000i128, -1, 0, 1, 999, 4_000_001] {
                    let back = time_at(&view(), &p, x_of_time(&view(), &p, t));
                    assert!(back <= t && t - back <= 2, "t {t} back {back}");
                }
            }
        }
    }
    let p = WaveformParameters::new();
    assert_eq!(time_at(&view(), &p, x_of_time(&view(), &p, 1000)), 1000);
}

#[test]
fn voltages_map_to_rows() {
    let p = WaveformParameters::new();
    assert_eq!(y_of_voltage(&view(), &p, 0), 300_000_000);
    assert_eq!(y_of_voltage(&view(), &p, 1_000_000_000_000), 225_000_000);
    assert_eq!(y_of_voltage(&view(), &p, -2_000_000_000_000), 450_000_000);
}

#[test]
fn trace_has_a_point_every_second_pixel() {
    let p = WaveformParameters::new();
    let points = trace(&view(), &p);
    assert_eq!(points.len(), 400);
    assert_eq!(points[0].x_upx, 0);
    assert_eq!(points[0].time_us, -5334);
    assert_eq!(points[0].reading, p.sample(-5334));
    assert_eq!(points[200].x_upx, 400_000_000);
    assert_eq!(points[200].reading, Reading::Sine { amplitude_mv: 5000, position: 0 });
    let odd = Viewport { left: 5, top: 0, width: 7, height: 9 };
    assert_eq!(trace(&odd, &p).len(), 3);
    assert_eq!(trace(&odd, &p)[2].x_upx, 9_000_000);
}

//! Screen-space mapping: from a pixel column to a time, from a time back to
//! a column, and from a voltage to a row.
//!
//! One division is a square cell, as large as fits ten across and eight
//! down, times the zoom. Time zero and zero volts sit at the origin: the
//! centre of the view moved by the pan. Positions are in micropixels.
use vstd::prelude::*;
use crate::arith::lemma_floor_div_bounds;
use crate::params::WaveformParameters;
use crate::waveform::{Reading, sample_spec};

verus! {

pub const UPX_PER_PX: i128 = 1_000_000;
/// Largest width or height of a view, in pixels.
pub const MAX_EXTENT: u32 = 1_048_576;
/// Largest cell, in micropixels: ten times the largest zoom on the largest
/// view.
pub const MAX_CELL_UPX: i128 = 2_199_023_255_552;
/// Largest distance of an origin from zero, in micropixels.
pub const MAX_ORIGIN_UPX: i128 = 38_685_626_227_668_133_590_597_632;
/// Largest distance from time zero, in microseconds, that the mapping of a
/// time to the screen takes.
pub const MAX_TIME_US: i128 = 4_611_686_018_427_387_904;
/// Largest distance from zero, in micropixels, that the mapping of a
/// position to a time takes.
pub const MAX_POSITION_UPX: i128 = 40_564_819_207_303_340_847_894_502_572_032;
/// Picovolts in a millivolt.
pub const PV_PER_MV: i128 = 1_000_000_000;

/// The screen rectangle that the display fills, in pixels.
#[derive(Clone, Copy, Debug, PartialEq, Eq, Structural)]
pub struct Viewport {
    pub left: i64,
    pub top: i64,
    pub width: u32,
    pub height: u32,
}

impl Viewport {
    pub open spec fn wf(&self) -> bool {
        &&& 1 <= self.width <= MAX_EXTENT
        &&& 1 <= self.height <= MAX_EXTENT
    }
}

/// The side of one division, in micropixels: the smaller of a tenth of the
/// width and an eighth of the height (`100 * width` and `125 * height`
/// thousandths of a pixel), times the zoom in thousandths.
pub open spec fn cell_size_spec(view: Viewport, params: WaveformParameters) -> int {
    let across = 100 * view.width;
    let down = 125 * view.height;
    (if across <= down { across } else { down }) * params.zoom
}

/// The column of time zero, in micropixels.
pub open spec fn origin_x_spec(view: Viewport, params: WaveformParameters) -> int {
    view.left * UPX_PER_PX + view.width * (UPX_PER_PX / 2) + params.pan_x_upx
}

/// The row of zero volts, in micropixels.
pub open spec fn origin_y_spec(view: Viewport, params: WaveformParameters) -> int {
    view.top * UPX_PER_PX + view.height * (UPX_PER_PX / 2) + params.pan_y_upx
}

/// The time, in microseconds and rounded down, at column `x_upx`: its
/// distance from the origin in divisions, times the time per division.
pub open spec fn time_at_spec(view: Viewport, params: WaveformParameters, x_upx: int) -> int {
    ((x_upx - origin_x_spec(view, params)) * params.us_per_div) / cell_size_spec(view, params)
}

/// The column, in micropixels and rounded down, of time `t_us`.
pub open spec fn x_of_time_spec(view: Viewport, params: WaveformParameters, t_us: int) -> int {
    origin_x_spec(view, params) + (t_us * cell_size_spec(view, params)) / (params.us_per_div as int)
}

/// The row, in micropixels, of a voltage of `v_pv` picovolts: above the
/// origin for a positive voltage, by its number of divisions rounded down.
pub open spec fn y_of_voltage_spec(view: Viewport, params: WaveformParameters, v_pv: int) -> int {
    origin_y_spec(view, params) - (v_pv * cell_size_spec(view, params)) / (params.mv_per_div * PV_PER_MV)
}

/// The side of one division, in micropixels.
pub fn cell_size(view: &Viewport, params: &WaveformParameters) -> (r: i128)
    requires
        view.wf(),
        params.wf(),
    ensures
        r == cell_size_spec(*view, *params),
        100_000 <= r <= MAX_CELL_UPX,
{
    let across: i128 = 100 * view.width as i128;
    let down: i128 = 125 * view.height as i128;
    let side: i128 = if across <= down { across } else { down };
    let zoom: i128 = params.zoom as i128;
    assert(100_000 <= side * zoom <= MAX_CELL_UPX) by (nonlinear_arith)
        requires
            100 <= side <= 125 * MAX_EXTENT,
            1000 <= zoom <= 10_000,
    ;
    side * zoom
}

/// The column of time zero, in micropixels.
pub fn origin_x(view: &Viewport, params: &WaveformParameters) -> (r: i128)
    requires
        view.wf(),
    ensures
        r == origin_x_spec(*view, *params),
        -MAX_ORIGIN_UPX <= r <= MAX_ORIGIN_UPX,
{
    view.left as i128 * UPX_PER_PX + view.width as i128 * (UPX_PER_PX / 2) + params.pan_x_upx as i128
}

/// The row of zero volts, in micropixels.
pub fn origin_y(view: &Viewport, params: &WaveformParameters) -> (r: i128)
    requires
        view.wf(),
    ensures
        r == origin_y_spec(*view, *params),
        -MAX_ORIGIN_UPX <= r <= MAX_ORIGIN_UPX,
{
    view.top as i128 * UPX_PER_PX + view.height as i128 * (UPX_PER_PX / 2) + params.pan_y_upx as i128
}

/// `n / c` rounded down, for a positive `c`.
fn floor_div(n: i128, c: i128) -> (r: i128)
    requires
        c > 0,
    ensures
        r == n / c,
{
    proof {
        lemma_floor_div_bounds(n as int, c as int);
    }
    match n.checked_div_euclid(c) {
        Some(q) => q,
        None => 0,
    }
}

/// The time, in microseconds and rounded down, at column `x_upx`.
pub fn time_at(view: &Viewport, params: &WaveformParameters, x_upx: i128) -> (r: i128)
    requires
        view.wf(),
        params.wf(),
        -MAX_POSITION_UPX <= x_upx <= MAX_POSITION_UPX,
    ensures
        r == time_at_spec(*view, *params, x_upx as int),
{
    let cell = cell_size(view, params);
    let dx: i128 = x_upx - origin_x(view, params);
    let u: i128 = params.us_per_div as i128;
    assert(-0x2000_0000_0000_0000_0000_0000_0000_0000 <= dx * u <= 0x2000_0000_0000_0000_0000_0000_0000_0000)
        by (nonlinear_arith)
        requires
            -2 * MAX_POSITION_UPX <= dx <= 2 * MAX_POSITION_UPX,
            0 <= u <= 200_000,
    ;
    floor_div(dx * u, cell)
}

/// The column, in micropixels and rounded down, of time `t_us`.
pub fn x_of_time(view: &Viewport, params: &WaveformParameters, t_us: i128) -> (r: i128)
    requires
        view.wf(),
        params.wf(),
        -MAX_TIME_US <= t_us <= MAX_TIME_US,
    ensures
        r == x_of_time_spec(*view, *params, t_us as int),
        -MAX_POSITION_UPX <= r <= MAX_POSITION_UPX,
{
    let cell = cell_size(view, params);
    assert(-0x80_0000_0000_0000_0000_0000_0000 <= t_us * cell <= 0x80_0000_0000_0000_0000_0000_0000)
        by (nonlinear_arith)
        requires
            -MAX_TIME_US <= t_us <= MAX_TIME_US,
            0 <= cell <= MAX_CELL_UPX,
    ;
    let q = floor_div(t_us * cell, params.us_per_div as i128);
    proof {
        lemma_floor_div_bounds(t_us * cell, params.us_per_div as int);
    }
    origin_x(view, params) + q
}

/// The row, in micropixels, of a voltage of `v_pv` picovolts.
pub fn y_of_voltage(view: &Viewport, params: &WaveformParameters, v_pv: i64) -> (r: i128)
    requires
        view.wf(),
        params.wf(),
    ensures
        r == y_of_voltage_spec(*view, *params, v_pv as int),
{
    let cell = cell_size(view, params);
    let v: i128 = v_pv as i128;
    assert(-0x1000_0000_0000_0000_0000_0000_0000 <= v * cell <= 0x1000_0000_0000_0000_0000_0000_0000)
        by (nonlinear_arith)
        requires
            -0x8000_0000_0000_0000 <= v <= 0x8000_0000_0000_0000,
            0 <= cell <= MAX_CELL_UPX,
    ;
    let q = floor_div(v * cell, params.mv_per_div as i128 * PV_PER_MV);
    proof {
        lemma_floor_div_bounds(v * cell, params.mv_per_div * PV_PER_MV);
    }
    origin_y(view, params) - q
}

/// Mapping a time to its column and the column back to a time recovers the
/// time, rounded down by less than one microsecond plus the time that one
/// micropixel spans; on every view and at every setting that the controls
/// allow, that is at most two microseconds.
pub proof fn lemma_time_round_trip(view: Viewport, params: WaveformParameters, t_us: int)
    requires
        view.wf(),
        params.wf(),
        -MAX_TIME_US <= t_us <= MAX_TIME_US,
    ensures
        -MAX_POSITION_UPX <= x_of_time_spec(view, params, t_us) <= MAX_POSITION_UPX,
        time_at_spec(view, params, x_of_time_spec(view, params, t_us)) <= t_us,
        (t_us - time_at_spec(view, params, x_of_time_spec(view, params, t_us))) * cell_size_spec(view, params)
            < params.us_per_div + cell_size_spec(view, params),
        t_us - time_at_spec(view, params, x_of_time_spec(view, params, t_us)) <= 2,
{
    let c = cell_size_spec(view, params);
    let u = params.us_per_div as int;
    let o = origin_x_spec(view, params);
    assert(100_000 <= c <= MAX_CELL_UPX) by (nonlinear_arith)
        requires
            100 <= (if 100 * view.width <= 125 * view.height { 100 * view.width } else { 125 * view.height }) <= 125 * MAX_EXTENT,
            1000 <= params.zoom <= 10_000,
            c == (if 100 * view.width <= 125 * view.height { 100 * view.width } else { 125 * view.height }) * params.zoom,
    ;
    assert(-0x80_0000_0000_0000_0000_0000_0000 <= t_us * c <= 0x80_0000_0000_0000_0000_0000_0000)
        by (nonlinear_arith)
        requires
            -MAX_TIME_US <= t_us <= MAX_TIME_US,
            0 <= c <= MAX_CELL_UPX,
    ;
    let q = (t_us * c) / u;
    lemma_floor_div_bounds(t_us * c, u);
    let x = x_of_time_spec(view, params, t_us);
    assert(x - o == q);
    let t2 = (q * u) / c;
    lemma_floor_div_bounds(q * u, c);
    assert(time_at_spec(view, params, x) == t2);
    assert(t2 <= t_us && (t_us - t2) * c < u + c) by (nonlinear_arith)
        requires
            c > 0,
            u * q <= t_us * c < u * q + u,
            c * t2 <= q * u < c * t2 + c,
    ;
    assert(t_us - t2 <= 2) by (nonlinear_arith)
        requires
            100_000 <= c,
            u <= 200_000,
            (t_us - t2) * c < u + c,
    ;
}

/// One point of the trace: a column, the time there and the reading.
#[derive(Clone, Copy, Debug, PartialEq, Eq, Structural)]
pub struct TracePoint {
    pub x_upx: i128,
    pub time_us: i128,
    pub reading: Reading,
}

/// The column of the `i`-th point of the trace: every second pixel from the
/// left edge.
pub open spec fn trace_x_spec(view: Viewport, i: int) -> int {
    (view.left + 2 * i) * UPX_PER_PX
}

/// The trace across the view: one point every second pixel from the left
/// edge, as many as fit in the width, each with the time at its column and
/// the reading of the signal then.
pub fn trace(view: &Viewport, params: &WaveformParameters) -> (r: Vec<TracePoint>)
    requires
        view.wf(),
        params.wf(),
    ensures
        r@.len() == view.width / 2,
        forall|i: int| 0 <= i < r@.len() ==> {
            let x = trace_x_spec(*view, i);
            let t = time_at_spec(*view, *params, x);
            &&& #[trigger] r@[i].x_upx == x
            &&& r@[i].time_us == t
            &&& r@[i].reading == sample_spec(params.kind, params.amplitude_mv as int, params.freq_mhz as int, t)
        },
{
    let n: u32 = view.width / 2;
    let mut points: Vec<TracePoint> = Vec::new();
    let mut i: u32 = 0;
    while i < n
        invariant
            view.wf(),
            params.wf(),
            n == view.width / 2,
            i <= n,
            points@.len() == i,
            forall|k: int| 0 <= k < i ==> {
                let x = trace_x_spec(*view, k);
                let t = time_at_spec(*view, *params, x);
                &&& #[trigger] points@[k].x_upx == x
                &&& points@[k].time_us == t
                &&& points@[k].reading == sample_spec(params.kind, params.amplitude_mv as int, params.freq_mhz as int, t)
            },
        decreases n - i,
    {
        let x: i128 = (view.left as i128 + 2 * i as i128) * UPX_PER_PX;
        let t = time_at(view, params, x);
        let reading = params.sample(t);
        points.push(TracePoint { x_upx: x, time_us: t, reading });
        i = i + 1;
    }
    points
}

} // verus!

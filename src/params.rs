//! The settings of the oscilloscope: signal, scales, zoom and pan.
use vstd::prelude::*;
use crate::arith::lemma_floor_div_bounds;
use crate::waveform::{Reading, WaveformType, sample, sample_spec};

verus! {

pub const MIN_FREQ_MHZ: u32 = 100;
pub const MAX_FREQ_MHZ: u32 = 500_000;
pub const MIN_AMPLITUDE_MV: u32 = 100;
pub const MAX_AMPLITUDE_MV: u32 = 200_000;
pub const MIN_US_PER_DIV: u32 = 100;
pub const MAX_US_PER_DIV: u32 = 200_000;
pub const MIN_MV_PER_DIV: u32 = 100;
pub const MAX_MV_PER_DIV: u32 = 200_000;
/// Zoom is held in thousandths: `1000` is no magnification.
pub const MIN_ZOOM: u32 = 1000;
pub const MAX_ZOOM: u32 = 10_000;

/// `v` brought into `lo ..= hi`.
pub open spec fn clamp(v: int, lo: int, hi: int) -> int {
    if v < lo {
        lo
    } else if v > hi {
        hi
    } else {
        v
    }
}

fn clamp_u32(v: u32, lo: u32, hi: u32) -> (r: u32)
    requires
        lo <= hi,
    ensures
        r == clamp(v as int, lo as int, hi as int),
{
    if v < lo {
        lo
    } else if v > hi {
        hi
    } else {
        v
    }
}

fn saturating_sum(a: i64, b: i64) -> (r: i64)
    ensures
        r == clamp(a + b, i64::MIN as int, i64::MAX as int),
{
    let sum: i128 = a as i128 + b as i128;
    if sum < i64::MIN as i128 {
        i64::MIN
    } else if sum > i64::MAX as i128 {
        i64::MAX
    } else {
        sum as i64
    }
}

/// Everything the display is computed from.
#[derive(Clone, Copy, Debug, PartialEq, Eq, Structural)]
pub struct WaveformParameters {
    /// Frequency, in millihertz.
    pub freq_mhz: u32,
    /// Peak voltage, in millivolts.
    pub amplitude_mv: u32,
    /// Time per division, in microseconds.
    pub us_per_div: u32,
    /// Voltage per division, in millivolts.
    pub mv_per_div: u32,
    pub kind: WaveformType,
    /// Zoom, in thousandths.
    pub zoom: u32,
    /// Horizontal pan of the origin, in micropixels.
    pub pan_x_upx: i64,
    /// Vertical pan of the origin, in micropixels.
    pub pan_y_upx: i64,
}

impl WaveformParameters {
    /// Each setting lies in the range that the controls allow.
    pub open spec fn wf(&self) -> bool {
        &&& MIN_FREQ_MHZ <= self.freq_mhz <= MAX_FREQ_MHZ
        &&& MIN_AMPLITUDE_MV <= self.amplitude_mv <= MAX_AMPLITUDE_MV
        &&& MIN_US_PER_DIV <= self.us_per_div <= MAX_US_PER_DIV
        &&& MIN_MV_PER_DIV <= self.mv_per_div <= MAX_MV_PER_DIV
        &&& MIN_ZOOM <= self.zoom <= MAX_ZOOM
    }

    /// The scales, zoom and pan are those of `o`.
    pub open spec fn same_display(&self, o: Self) -> bool {
        &&& self.us_per_div == o.us_per_div
        &&& self.mv_per_div == o.mv_per_div
        &&& self.zoom == o.zoom
        &&& self.pan_x_upx == o.pan_x_upx
        &&& self.pan_y_upx == o.pan_y_upx
    }

    /// A 250 Hz sine of 5 V, at 1 ms and 1 V per division, unzoomed and
    /// centred.
    pub open spec fn new_spec() -> Self {
        WaveformParameters {
            freq_mhz: 250_000,
            amplitude_mv: 5000,
            us_per_div: 1000,
            mv_per_div: 1000,
            kind: WaveformType::Sine,
            zoom: 1000,
            pan_x_upx: 0,
            pan_y_upx: 0,
        }
    }

    /// The settings at start-up: see `new_spec`.
    pub fn new() -> (r: Self)
        ensures
            r == Self::new_spec(),
            r.wf(),
    {
        WaveformParameters {
            freq_mhz: 250_000,
            amplitude_mv: 5000,
            us_per_div: 1000,
            mv_per_div: 1000,
            kind: WaveformType::Sine,
            zoom: 1000,
            pan_x_upx: 0,
            pan_y_upx: 0,
        }
    }

    /// The reading of the configured signal at time `t_us`.
    pub fn sample(&self, t_us: i128) -> (r: Reading)
        ensures
            r == sample_spec(self.kind, self.amplitude_mv as int, self.freq_mhz as int, t_us as int),
    {
        sample(self.kind, self.amplitude_mv, self.freq_mhz, t_us)
    }

    /// Sets the frequency, clamped to the range of the control.
    pub fn set_frequency(&mut self, freq_mhz: u32)
        ensures
            final(self).freq_mhz == clamp(freq_mhz as int, MIN_FREQ_MHZ as int, MAX_FREQ_MHZ as int),
            final(self).amplitude_mv == old(self).amplitude_mv,
            final(self).kind == old(self).kind,
            final(self).same_display(*old(self)),
            old(self).wf() ==> final(self).wf(),
    {
        self.freq_mhz = clamp_u32(freq_mhz, MIN_FREQ_MHZ, MAX_FREQ_MHZ);
    }

    /// Sets the amplitude, clamped to the range of the control.
    pub fn set_amplitude(&mut self, amplitude_mv: u32)
        ensures
            final(self).amplitude_mv == clamp(amplitude_mv as int, MIN_AMPLITUDE_MV as int, MAX_AMPLITUDE_MV as int),
            final(self).freq_mhz == old(self).freq_mhz,
            final(self).kind == old(self).kind,
            final(self).same_display(*old(self)),
            old(self).wf() ==> final(self).wf(),
    {
        self.amplitude_mv = clamp_u32(amplitude_mv, MIN_AMPLITUDE_MV, MAX_AMPLITUDE_MV);
    }

    /// Sets the waveform kind.
    pub fn set_kind(&mut self, kind: WaveformType)
        ensures
            final(self).kind == kind,
            final(self).freq_mhz == old(self).freq_mhz,
            final(self).amplitude_mv == old(self).amplitude_mv,
            final(self).same_display(*old(self)),
            old(self).wf() ==> final(self).wf(),
    {
        self.kind = kind;
    }

    /// Sets the time per division, clamped to the range of the control.
    pub fn set_time_per_div(&mut self, us_per_div: u32)
        ensures
            *final(self) == (WaveformParameters {
                us_per_div: clamp(us_per_div as int, MIN_US_PER_DIV as int, MAX_US_PER_DIV as int) as u32,
                ..*old(self)
            }),
            old(self).wf() ==> final(self).wf(),
    {
        self.us_per_div = clamp_u32(us_per_div, MIN_US_PER_DIV, MAX_US_PER_DIV);
    }

    /// Sets the voltage per division, clamped to the range of the control.
    pub fn set_volts_per_div(&mut self, mv_per_div: u32)
        ensures
            *final(self) == (WaveformParameters {
                mv_per_div: clamp(mv_per_div as int, MIN_MV_PER_DIV as int, MAX_MV_PER_DIV as int) as u32,
                ..*old(self)
            }),
            old(self).wf() ==> final(self).wf(),
    {
        self.mv_per_div = clamp_u32(mv_per_div, MIN_MV_PER_DIV, MAX_MV_PER_DIV);
    }

    /// Sets the zoom, clamped to the range of the control.
    pub fn set_zoom(&mut self, zoom: u32)
        ensures
            *final(self) == (WaveformParameters {
                zoom: clamp(zoom as int, MIN_ZOOM as int, MAX_ZOOM as int) as u32,
                ..*old(self)
            }),
            old(self).wf() ==> final(self).wf(),
    {
        self.zoom = clamp_u32(zoom, MIN_ZOOM, MAX_ZOOM);
    }

    /// One step of the wheel towards the signal: the zoom grows by a tenth,
    /// rounded down, and stops at its largest value.
    pub fn zoom_in(&mut self)
        requires
            old(self).wf(),
        ensures
            *final(self) == (WaveformParameters {
                zoom: clamp(old(self).zoom * 11 / 10, MIN_ZOOM as int, MAX_ZOOM as int) as u32,
                ..*old(self)
            }),
            final(self).wf(),
    {
        let grown: u32 = self.zoom * 11 / 10;
        self.zoom = clamp_u32(grown, MIN_ZOOM, MAX_ZOOM);
    }

    /// One step of the wheel away from the signal: the zoom shrinks by a
    /// factor of 1.1, rounded down, and stops at no magnification.
    pub fn zoom_out(&mut self)
        requires
            old(self).wf(),
        ensures
            *final(self) == (WaveformParameters {
                zoom: clamp(old(self).zoom * 10 / 11, MIN_ZOOM as int, MAX_ZOOM as int) as u32,
                ..*old(self)
            }),
            final(self).wf(),
    {
        let shrunk: u32 = self.zoom * 10 / 11;
        self.zoom = clamp_u32(shrunk, MIN_ZOOM, MAX_ZOOM);
    }

    /// Moves the origin by a drag of `dx_upx`, `dy_upx` micropixels; the
    /// pan saturates at the bounds of `i64`.
    pub fn pan_by(&mut self, dx_upx: i64, dy_upx: i64)
        ensures
            *final(self) == (WaveformParameters {
                pan_x_upx: clamp(old(self).pan_x_upx + dx_upx, i64::MIN as int, i64::MAX as int) as i64,
                pan_y_upx: clamp(old(self).pan_y_upx + dy_upx, i64::MIN as int, i64::MAX as int) as i64,
                ..*old(self)
            }),
            old(self).wf() ==> final(self).wf(),
    {
        self.pan_x_upx = saturating_sum(self.pan_x_upx, dx_upx);
        self.pan_y_upx = saturating_sum(self.pan_y_upx, dy_upx);
    }

    /// Puts the origin back at the centre of the view.
    pub fn reset_pan(&mut self)
        ensures
            *final(self) == (WaveformParameters { pan_x_upx: 0, pan_y_upx: 0, ..*old(self) }),
            old(self).wf() ==> final(self).wf(),
    {
        self.pan_x_upx = 0;
        self.pan_y_upx = 0;
    }
}

/// Divisions across the screen.
pub const HORIZONTAL_DIVISIONS: i128 = 10;

/// The time, in microseconds and rounded down, of entry `i` of a buffer of
/// `len` samples: the buffer spans ten divisions with its middle entry at
/// time zero.
pub open spec fn buffer_time_spec(us_per_div: int, len: int, i: int) -> int {
    ((i - len / 2) * (HORIZONTAL_DIVISIONS * us_per_div)) / (len - 1)
}

impl WaveformParameters {
    /// `len` readings spread evenly over ten divisions of time, centred on
    /// time zero.
    pub fn generate_waveform(&self, len: usize) -> (r: Vec<Reading>)
        requires
            self.wf(),
            len >= 2,
        ensures
            r@.len() == len,
            forall|i: int| 0 <= i < len ==> #[trigger] r@[i] == sample_spec(
                self.kind,
                self.amplitude_mv as int,
                self.freq_mhz as int,
                buffer_time_spec(self.us_per_div as int, len as int, i),
            ),
    {
        let span: i128 = HORIZONTAL_DIVISIONS * self.us_per_div as i128;
        let centre: i128 = (len / 2) as i128;
        let steps: i128 = len as i128 - 1;
        let mut readings: Vec<Reading> = Vec::new();
        let mut i: usize = 0;
        while i < len
            invariant
                self.wf(),
                span == HORIZONTAL_DIVISIONS * self.us_per_div,
                centre == len / 2,
                steps == len - 1,
                len >= 2,
                i <= len,
                readings@.len() == i,
                forall|k: int| 0 <= k < i ==> #[trigger] readings@[k] == sample_spec(
                    self.kind,
                    self.amplitude_mv as int,
                    self.freq_mhz as int,
                    buffer_time_spec(self.us_per_div as int, len as int, k),
                ),
            decreases len - i,
        {
            let offset: i128 = i as i128 - centre;
            assert(-0x1_0000_0000_0000_0000 * 2_000_000 <= offset * span <= 0x1_0000_0000_0000_0000 * 2_000_000)
                by (nonlinear_arith)
                requires
                    -0x1_0000_0000_0000_0000 <= offset <= 0x1_0000_0000_0000_0000,
                    0 <= span <= 2_000_000,
            ;
            let t: i128 = match (offset * span).checked_div_euclid(steps) {
                Some(q) => q,
                None => 0,
            };
            proof {
                lemma_floor_div_bounds(offset * span, steps as int);
            }
            readings.push(self.sample(t));
            i = i + 1;
        }
        readings
    }
}

impl Default for WaveformParameters {
    fn default() -> (r: Self)
        ensures
            r == WaveformParameters::new_spec(),
    {
        WaveformParameters::new()
    }
}

} // verus!

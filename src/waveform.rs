//! The periodic signal: where in its cycle it stands at a given time, and the
//! level that each waveform kind gives there.
use vstd::prelude::*;
use vstd::arithmetic::div_mod::{lemma_add_mod_noop, lemma_fundamental_div_mod, lemma_mul_mod_noop_left};

verus! {

/// Parts of a full cycle. A frequency in millihertz times a time in
/// microseconds counts cycles in these parts, so phase is exact.
pub const TURN: i128 = 1_000_000_000;

/// The shape of the synthesized signal.
#[derive(Clone, Copy, Debug, PartialEq, Eq, Structural)]
pub enum WaveformType {
    Sine,
    Square,
    Triangle,
}

/// One sample of the signal.
#[derive(Clone, Copy, Debug, PartialEq, Eq, Structural)]
pub enum Reading {
    /// An exact voltage, in picovolts.
    Picovolts(i64),
    /// `amplitude_mv` millivolts times the sine of `position / TURN` of a
    /// full turn: the one level that is not an exact integer.
    Sine { amplitude_mv: u32, position: u32 },
}

/// Position in the cycle, in `0 .. TURN`, of a signal of frequency
/// `freq_mhz` at time `t_us`. The cycle starts at time zero.
pub open spec fn cycle_position_spec(freq_mhz: int, t_us: int) -> int {
    (freq_mhz * t_us) % (TURN as int)
}

/// Sign of the sine, as a level: `+TURN` on the first half of the cycle,
/// `-TURN` on the second. At both zero crossings the sine is zero and the
/// level is positive.
pub open spec fn square_level(pos: int) -> int {
    if pos <= TURN / 2 {
        TURN as int
    } else {
        -TURN
    }
}

/// `(2 / pi) * asin(sin(2 * pi * pos / TURN))` scaled by `TURN`: zero at the
/// start of the cycle, `+TURN` at a quarter, zero at half, `-TURN` at three
/// quarters, linear in between.
pub open spec fn triangle_level(pos: int) -> int {
    if pos <= TURN / 4 {
        4 * pos
    } else if pos <= 3 * TURN / 4 {
        2 * TURN - 4 * pos
    } else {
        4 * pos - 4 * TURN
    }
}

/// The reading of a signal of kind `kind` and amplitude `amplitude_mv` at
/// cycle position `pos`. A level `l` of an amplitude `a` millivolts is
/// `a * l / TURN` millivolts, that is `a * l` picovolts.
pub open spec fn reading_at(kind: WaveformType, amplitude_mv: int, pos: int) -> Reading {
    match kind {
        WaveformType::Sine => Reading::Sine { amplitude_mv: amplitude_mv as u32, position: pos as u32 },
        WaveformType::Square => Reading::Picovolts((amplitude_mv * square_level(pos)) as i64),
        WaveformType::Triangle => Reading::Picovolts((amplitude_mv * triangle_level(pos)) as i64),
    }
}

/// The reading at time `t_us` of the signal with the given kind, amplitude
/// and frequency.
pub open spec fn sample_spec(kind: WaveformType, amplitude_mv: int, freq_mhz: int, t_us: int) -> Reading {
    reading_at(kind, amplitude_mv, cycle_position_spec(freq_mhz, t_us))
}

/// Where in its cycle a signal of frequency `freq_mhz` stands at `t_us`.
pub fn cycle_position(freq_mhz: u32, t_us: i128) -> (r: u32)
    ensures
        r as int == cycle_position_spec(freq_mhz as int, t_us as int),
        r < TURN,
{
    let reduced: i128 = match t_us.checked_rem_euclid(TURN) {
        Some(v) => v,
        None => 0,
    };
    assert(0 <= reduced < TURN);
    assert(reduced * freq_mhz < TURN * 0x1_0000_0000) by (nonlinear_arith)
        requires
            0 <= reduced < TURN,
            freq_mhz < 0x1_0000_0000int,
    ;
    let product: i128 = reduced * (freq_mhz as i128);
    let pos: i128 = match product.checked_rem_euclid(TURN) {
        Some(v) => v,
        None => 0,
    };
    proof {
        lemma_mul_mod_noop_left(t_us as int, freq_mhz as int, TURN as int);
        assert(t_us * freq_mhz == freq_mhz * t_us) by (nonlinear_arith);
        assert(reduced * freq_mhz == freq_mhz * reduced) by (nonlinear_arith);
    }
    pos as u32
}

/// The level of the square wave at cycle position `pos`.
pub fn square_level_at(pos: u32) -> (r: i64)
    requires
        pos < TURN,
    ensures
        r as int == square_level(pos as int),
{
    if pos <= 500_000_000 {
        1_000_000_000
    } else {
        -1_000_000_000
    }
}

/// The level of the triangle wave at cycle position `pos`.
pub fn triangle_level_at(pos: u32) -> (r: i64)
    requires
        pos < TURN,
    ensures
        r as int == triangle_level(pos as int),
        -TURN <= r <= TURN,
{
    let p: i64 = pos as i64;
    if p <= 250_000_000 {
        4 * p
    } else if p <= 750_000_000 {
        2_000_000_000 - 4 * p
    } else {
        4 * p - 4_000_000_000
    }
}

/// The reading at time `t_us` of a signal of kind `kind`, amplitude
/// `amplitude_mv` millivolts and frequency `freq_mhz` millihertz.
pub fn sample(kind: WaveformType, amplitude_mv: u32, freq_mhz: u32, t_us: i128) -> (r: Reading)
    ensures
        r == sample_spec(kind, amplitude_mv as int, freq_mhz as int, t_us as int),
{
    let pos = cycle_position(freq_mhz, t_us);
    let a: i64 = amplitude_mv as i64;
    match kind {
        WaveformType::Sine => Reading::Sine { amplitude_mv, position: pos },
        WaveformType::Square => {
            let level = square_level_at(pos);
            assert(a * level == if level > 0 { a * TURN } else { -(a * TURN) }) by (nonlinear_arith)
                requires
                    level == TURN || level == -TURN,
            ;
            assert(a * TURN < 0x1_0000_0000 * TURN) by (nonlinear_arith)
                requires
                    0 <= a < 0x1_0000_0000int,
            ;
            Reading::Picovolts(a * level)
        },
        WaveformType::Triangle => {
            let level = triangle_level_at(pos);
            assert(-(0x1_0000_0000 * TURN) <= a * level <= 0x1_0000_0000 * TURN) by (nonlinear_arith)
                requires
                    0 <= a < 0x1_0000_0000int,
                    -TURN <= level <= TURN,
            ;
            Reading::Picovolts(a * level)
        },
    }
}

/// A reading of twice the voltage: an exact level doubled, or a sine of twice
/// the amplitude at the same position.
pub open spec fn doubled(r: Reading) -> Reading {
    match r {
        Reading::Picovolts(v) => Reading::Picovolts((2 * v) as i64),
        Reading::Sine { amplitude_mv, position } => Reading::Sine {
            amplitude_mv: (2 * amplitude_mv) as u32,
            position,
        },
    }
}

/// At time zero every waveform starts its cycle: the sine and the triangle
/// are at zero, and the square wave, whose zero crossings count as
/// positive, is at its positive peak.
pub proof fn lemma_start_of_cycle(amplitude_mv: u32, freq_mhz: u32)
    ensures
        sample_spec(WaveformType::Sine, amplitude_mv as int, freq_mhz as int, 0)
            == (Reading::Sine { amplitude_mv, position: 0 }),
        sample_spec(WaveformType::Square, amplitude_mv as int, freq_mhz as int, 0)
            == Reading::Picovolts((amplitude_mv * TURN) as i64),
        sample_spec(WaveformType::Triangle, amplitude_mv as int, freq_mhz as int, 0)
            == Reading::Picovolts(0),
{
    assert(freq_mhz * 0int == 0) by (nonlinear_arith);
    assert(amplitude_mv * 0int == 0) by (nonlinear_arith);
}

/// A shift of time by a whole number of periods leaves the reading
/// unchanged, for every kind: `d_us` is a whole number of periods when
/// `freq_mhz * d_us` is a multiple of `TURN`.
pub proof fn lemma_whole_periods(
    kind: WaveformType,
    amplitude_mv: u32,
    freq_mhz: u32,
    t_us: int,
    d_us: int,
)
    requires
        (freq_mhz * d_us) % (TURN as int) == 0,
    ensures
        sample_spec(kind, amplitude_mv as int, freq_mhz as int, t_us + d_us)
            == sample_spec(kind, amplitude_mv as int, freq_mhz as int, t_us),
{
    let f = freq_mhz as int;
    let m = TURN as int;
    assert(f * (t_us + d_us) == f * t_us + f * d_us) by (nonlinear_arith);
    lemma_add_mod_noop(f * t_us, f * d_us, m);
    assert((f * t_us) % m % m == (f * t_us) % m);
}

/// One period after any time, the reading is the same, for every kind. The
/// period is `TURN / freq_mhz` microseconds; it is a whole number of
/// microseconds where `freq_mhz` divides `TURN`.
pub proof fn lemma_one_period(kind: WaveformType, amplitude_mv: u32, freq_mhz: u32, t_us: int)
    requires
        freq_mhz > 0,
        (TURN as int) % (freq_mhz as int) == 0,
    ensures
        sample_spec(kind, amplitude_mv as int, freq_mhz as int, t_us + (TURN as int) / (freq_mhz as int))
            == sample_spec(kind, amplitude_mv as int, freq_mhz as int, t_us),
{
    let f = freq_mhz as int;
    let m = TURN as int;
    lemma_fundamental_div_mod(m, f);
    assert(f * (m / f) == m);
    assert(m % m == 0);
    lemma_whole_periods(kind, amplitude_mv, freq_mhz, t_us, m / f);
}

/// Doubling the amplitude doubles the reading at every time, for every
/// kind.
pub proof fn lemma_amplitude_doubling(kind: WaveformType, amplitude_mv: u32, freq_mhz: u32, t_us: int)
    requires
        2 * amplitude_mv <= u32::MAX,
    ensures
        sample_spec(kind, 2 * amplitude_mv, freq_mhz as int, t_us)
            == doubled(sample_spec(kind, amplitude_mv as int, freq_mhz as int, t_us)),
{
    let a = amplitude_mv as int;
    let pos = cycle_position_spec(freq_mhz as int, t_us);
    let level = match kind {
        WaveformType::Square => square_level(pos),
        _ => triangle_level(pos),
    };
    assert(-TURN <= triangle_level(pos) <= TURN);
    assert(-TURN <= level <= TURN);
    assert(-(0x8000_0000 * TURN) <= a * level <= 0x8000_0000 * TURN) by (nonlinear_arith)
        requires
            0 <= a <= 0x8000_0000int,
            -TURN <= level <= TURN,
    ;
    assert((2 * a) * level == 2 * (a * level)) by (nonlinear_arith);
}

} // verus!

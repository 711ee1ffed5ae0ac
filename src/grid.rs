//! Grid layout: the range of divisions to draw, the grid lines, and the
//! ticks along the centre axes.
//!
//! Every line and tick stands at a fixed multiple of the cell from the
//! origin, so the grid moves rigidly with the pan and scales with the zoom.
use vstd::prelude::*;
use vstd::arithmetic::div_mod::lemma_div_multiples_vanish;
use crate::arith::lemma_floor_div_bounds;
use crate::params::WaveformParameters;
use crate::screen::{
    MAX_CELL_UPX, MAX_ORIGIN_UPX, UPX_PER_PX, Viewport, cell_size, cell_size_spec, origin_x,
    origin_x_spec, origin_y, origin_y_spec, time_at_spec, x_of_time_spec,
};

verus! {

/// Largest distance from the origin, in micropixels, of the first or the
/// last line of a grid.
pub const MAX_SPAN_UPX: i128 = 1_237_940_039_285_380_274_899_124_224;

/// Divisions `first ..= last` either side of the origin: `0` is the
/// division at the origin, negative ones lie left of it (or above it).
#[derive(Clone, Copy, Debug, PartialEq, Eq, Structural)]
pub struct DivisionRange {
    pub first: i128,
    pub last: i128,
}

/// A range of divisions whose positions can be computed.
pub open spec fn grid_fits(origin: int, cell: int, range: DivisionRange) -> bool {
    &&& -MAX_ORIGIN_UPX <= origin <= MAX_ORIGIN_UPX
    &&& 0 < cell <= MAX_CELL_UPX
    &&& -MAX_SPAN_UPX <= range.first <= range.last <= MAX_SPAN_UPX
    &&& -MAX_SPAN_UPX <= range.first * cell <= MAX_SPAN_UPX
    &&& -MAX_SPAN_UPX <= range.last * cell <= MAX_SPAN_UPX
}

/// The first division to draw for the span `start ..= end`: the one that
/// holds `start`, and two more.
pub open spec fn first_division(origin: int, cell: int, start: int) -> int {
    (start - origin) / cell - 2
}

/// The last division to draw for the span `start ..= end`: the first whose
/// line lies at or past `end`, and two more.
pub open spec fn last_division(origin: int, cell: int, end: int) -> int {
    -((origin - end) / cell) + 2
}

/// The divisions to draw so that lines cover the span `start ..= end` with
/// two divisions to spare on each side.
pub fn visible_divisions(origin: i128, cell: i128, start: i128, end: i128) -> (r: DivisionRange)
    requires
        -MAX_ORIGIN_UPX <= origin <= MAX_ORIGIN_UPX,
        0 < cell <= MAX_CELL_UPX,
        -MAX_ORIGIN_UPX <= start <= end <= MAX_ORIGIN_UPX,
    ensures
        r.first == first_division(origin as int, cell as int, start as int),
        r.last == last_division(origin as int, cell as int, end as int),
        origin + r.first * cell <= start - 2 * cell,
        origin + r.last * cell >= end + 2 * cell,
        grid_fits(origin as int, cell as int, r),
{
    let lo = start - origin;
    let hi = origin - end;
    proof {
        lemma_floor_div_bounds(lo as int, cell as int);
        lemma_floor_div_bounds(hi as int, cell as int);
    }
    let qlo = match lo.checked_div_euclid(cell) {
        Some(q) => q,
        None => 0,
    };
    let qhi = match hi.checked_div_euclid(cell) {
        Some(q) => q,
        None => 0,
    };
    let r = DivisionRange { first: qlo - 2, last: -qhi + 2 };
    assert(r.first * cell == cell * qlo - 2 * cell && r.last * cell == -(cell * qhi) + 2 * cell)
        by (nonlinear_arith)
        requires
            r.first == qlo - 2,
            r.last == -qhi + 2,
    ;
    assert(-MAX_SPAN_UPX <= r.first && r.last <= MAX_SPAN_UPX) by (nonlinear_arith)
        requires
            cell > 0,
            -MAX_SPAN_UPX <= r.first * cell,
            r.last * cell <= MAX_SPAN_UPX,
    ;
    assert(r.first <= r.last) by (nonlinear_arith)
        requires
            cell > 0,
            r.first * cell <= lo - 2 * cell,
            r.last * cell > -hi + cell,
            lo <= -hi,
    ;
    r
}

/// The columns of divisions to draw across the view.
pub fn visible_columns(view: &Viewport, params: &WaveformParameters) -> (r: DivisionRange)
    requires
        view.wf(),
        params.wf(),
    ensures
        r.first == first_division(origin_x_spec(*view, *params), cell_size_spec(*view, *params), view.left * UPX_PER_PX),
        r.last == last_division(
            origin_x_spec(*view, *params),
            cell_size_spec(*view, *params),
            (view.left + view.width) * UPX_PER_PX,
        ),
        grid_fits(origin_x_spec(*view, *params), cell_size_spec(*view, *params), r),
{
    let start: i128 = view.left as i128 * UPX_PER_PX;
    let end: i128 = (view.left as i128 + view.width as i128) * UPX_PER_PX;
    visible_divisions(origin_x(view, params), cell_size(view, params), start, end)
}

/// The rows of divisions to draw down the view.
pub fn visible_rows(view: &Viewport, params: &WaveformParameters) -> (r: DivisionRange)
    requires
        view.wf(),
        params.wf(),
    ensures
        r.first == first_division(origin_y_spec(*view, *params), cell_size_spec(*view, *params), view.top * UPX_PER_PX),
        r.last == last_division(
            origin_y_spec(*view, *params),
            cell_size_spec(*view, *params),
            (view.top + view.height) * UPX_PER_PX,
        ),
        grid_fits(origin_y_spec(*view, *params), cell_size_spec(*view, *params), r),
{
    let start: i128 = view.top as i128 * UPX_PER_PX;
    let end: i128 = (view.top as i128 + view.height as i128) * UPX_PER_PX;
    visible_divisions(origin_y(view, params), cell_size(view, params), start, end)
}

/// A grid line at the boundary of division `index`; the one through the
/// origin is the strong centre axis.
#[derive(Clone, Copy, Debug, PartialEq, Eq, Structural)]
pub struct GridLine {
    pub index: i128,
    pub pos_upx: i128,
    pub strong: bool,
}

/// The line of division `index`.
pub open spec fn grid_line_spec(origin: int, cell: int, index: int) -> GridLine {
    GridLine { index: index as i128, pos_upx: (origin + index * cell) as i128, strong: index == 0 }
}

/// Every index in the range lies within the bounds of its ends.
proof fn lemma_index_in_span(origin: int, cell: int, range: DivisionRange, index: int)
    requires
        grid_fits(origin, cell, range),
        range.first <= index <= range.last,
    ensures
        -MAX_SPAN_UPX <= index * cell <= MAX_SPAN_UPX,
        -(MAX_ORIGIN_UPX + MAX_SPAN_UPX) <= origin + index * cell <= MAX_ORIGIN_UPX + MAX_SPAN_UPX,
{
    assert(range.first * cell <= index * cell <= range.last * cell) by (nonlinear_arith)
        requires
            cell > 0,
            range.first <= index <= range.last,
    ;
}

/// One line per division of the range, in order.
pub fn grid_lines(origin: i128, cell: i128, range: DivisionRange) -> (r: Vec<GridLine>)
    requires
        grid_fits(origin as int, cell as int, range),
    ensures
        r@.len() == range.last - range.first + 1,
        forall|k: int| 0 <= k < r@.len() ==> #[trigger] r@[k] == grid_line_spec(origin as int, cell as int, range.first + k),
{
    let mut lines: Vec<GridLine> = Vec::new();
    let mut index: i128 = range.first;
    while index <= range.last
        invariant
            grid_fits(origin as int, cell as int, range),
            range.first <= index <= range.last + 1,
            lines@.len() == index - range.first,
            forall|k: int| 0 <= k < lines@.len() ==> #[trigger] lines@[k] == grid_line_spec(origin as int, cell as int, range.first + k),
        decreases range.last + 1 - index,
    {
        proof {
            lemma_index_in_span(origin as int, cell as int, range, index as int);
        }
        lines.push(GridLine { index, pos_upx: origin + index * cell, strong: index == 0 });
        index = index + 1;
    }
    lines
}

/// What a tick along a centre axis marks.
#[derive(Clone, Copy, Debug, PartialEq, Eq, Structural)]
pub enum TickKind {
    /// The origin itself.
    Centre,
    /// The boundary of a division.
    Major,
    /// One of the nine tenths inside a division.
    Minor,
}

/// A tick across a centre axis, at `pos_upx` along it and `length_upx` long.
#[derive(Clone, Copy, Debug, PartialEq, Eq, Structural)]
pub struct Tick {
    pub pos_upx: i128,
    pub length_upx: i128,
    pub kind: TickKind,
}

/// The length of a tick of kind `kind`: a quarter of the cell at the
/// origin, 22 hundredths at a division, a tenth inside it.
pub open spec fn tick_length(cell: int, kind: TickKind) -> int {
    match kind {
        TickKind::Centre => cell * 25 / 100,
        TickKind::Major => cell * 22 / 100,
        TickKind::Minor => cell * 10 / 100,
    }
}

/// Tick `m`, in `0 .. 10`, of division `index`: the division's boundary for
/// `m == 0`, else `m` tenths of a cell past it, rounded down.
pub open spec fn tick_spec(origin: int, cell: int, index: int, m: int) -> Tick {
    let kind = if m != 0 {
        TickKind::Minor
    } else if index == 0 {
        TickKind::Centre
    } else {
        TickKind::Major
    };
    Tick {
        pos_upx: (origin + index * cell + m * cell / 10) as i128,
        length_upx: tick_length(cell, kind) as i128,
        kind,
    }
}

/// Ten ticks per division of the range, in order: the boundary of each
/// division, then its nine tenths.
pub fn axis_ticks(origin: i128, cell: i128, range: DivisionRange) -> (r: Vec<Tick>)
    requires
        grid_fits(origin as int, cell as int, range),
    ensures
        r@.len() == 10 * (range.last - range.first + 1),
        forall|d: int, m: int|
            0 <= d <= range.last - range.first && 0 <= m < 10 ==> #[trigger] r@[10 * d + m] == tick_spec(
                origin as int,
                cell as int,
                range.first + d,
                m,
            ),
{
    let mut ticks: Vec<Tick> = Vec::new();
    let mut index: i128 = range.first;
    while index <= range.last
        invariant
            grid_fits(origin as int, cell as int, range),
            range.first <= index <= range.last + 1,
            ticks@.len() == 10 * (index - range.first),
            forall|d: int, m: int|
                0 <= d < index - range.first && 0 <= m < 10 ==> #[trigger] ticks@[10 * d + m] == tick_spec(
                    origin as int,
                    cell as int,
                    range.first + d,
                    m,
                ),
        decreases range.last + 1 - index,
    {
        proof {
            lemma_index_in_span(origin as int, cell as int, range, index as int);
        }
        let base: i128 = origin + index * cell;
        let mut m: i128 = 0;
        while m < 10
            invariant
                grid_fits(origin as int, cell as int, range),
                range.first <= index <= range.last,
                base == origin + index * cell,
                -(MAX_ORIGIN_UPX + MAX_SPAN_UPX) <= base <= MAX_ORIGIN_UPX + MAX_SPAN_UPX,
                0 <= m <= 10,
                ticks@.len() == 10 * (index - range.first) + m,
                forall|d: int, j: int|
                    0 <= d < index - range.first && 0 <= j < 10 ==> #[trigger] ticks@[10 * d + j] == tick_spec(
                        origin as int,
                        cell as int,
                        range.first + d,
                        j,
                    ),
                forall|j: int| 0 <= j < m ==> #[trigger] ticks@[10 * (index - range.first) + j] == tick_spec(
                    origin as int,
                    cell as int,
                    index as int,
                    j,
                ),
            decreases 10 - m,
        {
            let kind = if m != 0 {
                TickKind::Minor
            } else if index == 0 {
                TickKind::Centre
            } else {
                TickKind::Major
            };
            let length: i128 = match kind {
                TickKind::Centre => cell * 25 / 100,
                TickKind::Major => cell * 22 / 100,
                TickKind::Minor => cell * 10 / 100,
            };
            assert(0 <= m * cell <= 9 * MAX_CELL_UPX) by (nonlinear_arith)
                requires
                    0 <= m < 10,
                    0 < cell <= MAX_CELL_UPX,
            ;
            ticks.push(Tick { pos_upx: base + m * cell / 10, length_upx: length, kind });
            m = m + 1;
        }
        index = index + 1;
    }
    ticks
}

/// The trace and the grid agree exactly: the time `k` divisions from zero
/// lands on the line of division `k`, and the column of that line maps back
/// to exactly that time, at every zoom and pan.
pub proof fn lemma_divisions_align(view: Viewport, params: WaveformParameters, k: int)
    requires
        view.wf(),
        params.wf(),
    ensures
        x_of_time_spec(view, params, k * params.us_per_div)
            == origin_x_spec(view, params) + k * cell_size_spec(view, params),
        time_at_spec(view, params, origin_x_spec(view, params) + k * cell_size_spec(view, params))
            == k * params.us_per_div,
{
    let c = cell_size_spec(view, params);
    let u = params.us_per_div as int;
    assert(c > 0) by (nonlinear_arith)
        requires
            c == (if 100 * view.width <= 125 * view.height { 100 * view.width } else { 125 * view.height }) * params.zoom,
            view.width >= 1,
            view.height >= 1,
            params.zoom >= 1,
    ;
    assert((k * u) * c == u * (k * c)) by (nonlinear_arith);
    lemma_div_multiples_vanish(k * c, u);
    assert((k * c) * u == c * (k * u)) by (nonlinear_arith);
    lemma_div_multiples_vanish(k * u, c);
}

} // verus!

use vstd::prelude::*;
use crate::frame::Frame;
use crate::interval::{COORD_LIMIT, grid_origin, grid_step, lemma_grid_covers, RangeF32};
use crate::tradedata::{value_range, Hlocv, TradeData, TradeInterval, TradeItem, TradeItemPositioned};

verus! {

/// Vertex indices are `u16`, so a buffer holds at most this many vertices.
pub const MAX_VERTICES: usize = 65536;

/// Default distance between neighbouring candles.
pub const DEFAULT_CANDLE_INTERVAL: u32 = 12;

/// Default half-width of a candle body.
pub const DEFAULT_CANDLE_RADIUS: u32 = 4;

/// Depth of grid lines, in tenths: they lie behind the candles.
pub const GRID_DEPTH: i64 = -1;

/// Depth of candles, in tenths.
pub const CANDLE_DEPTH: i64 = 0;

/// What can go wrong while building or loading a chart.
#[derive(Clone, Copy, Debug, PartialEq, Eq, Structural)]
pub enum ChartError {
    /// A grid or a scale was asked of an empty or too narrow range.
    DegenerateRange,
    /// More vertices than 16-bit indices can address.
    CapacityExceeded,
    /// A column that every row needs is absent.
    MissingColumn,
    /// The row at this position holds a value of the wrong kind, or too few values.
    MalformedRow(usize),
    /// A price lies beyond `PRICE_LIMIT` ticks from zero.
    OutOfRange,
}

/// A vertex position: `x` in slot units, `y` in ticks, `z` in tenths.
#[derive(Clone, Copy, Debug, PartialEq, Eq, Structural)]
pub struct Point {
    pub x: i64,
    pub y: i64,
    pub z: i64,
}

impl Default for Point {
    fn default() -> (r: Point)
        ensures
            r == (Point { x: 0, y: 0, z: 0 }),
    {
        Point { x: 0, y: 0, z: 0 }
    }
}

/// A vertex color, each channel in hundredths of full intensity.
#[derive(Clone, Copy, Debug, PartialEq, Eq, Structural)]
pub struct WebGlColor {
    pub r: u8,
    pub g: u8,
    pub b: u8,
}

pub open spec fn grid_color() -> WebGlColor {
    WebGlColor { r: 99, g: 99, b: 99 }
}

pub open spec fn bullish_color() -> WebGlColor {
    WebGlColor { r: 10, g: 60, b: 10 }
}

pub open spec fn bearish_color() -> WebGlColor {
    WebGlColor { r: 90, g: 10, b: 10 }
}

/// Spacing of the candles and half-width of their bodies.
#[derive(Clone, Copy, Debug, PartialEq, Eq, Structural)]
pub struct CandleOptions {
    pub interval: u32,
    pub radius: u32,
}

impl CandleOptions {
    pub fn new(interval: u32, radius: u32) -> (r: CandleOptions)
        ensures
            r == (CandleOptions { interval, radius }),
    {
        CandleOptions { interval, radius }
    }
}

impl Default for CandleOptions {
    fn default() -> (r: CandleOptions)
        ensures
            r == (CandleOptions { interval: DEFAULT_CANDLE_INTERVAL, radius: DEFAULT_CANDLE_RADIUS }),
    {
        CandleOptions { interval: DEFAULT_CANDLE_INTERVAL, radius: DEFAULT_CANDLE_RADIUS }
    }
}

/// Index lists by primitive: pairs for lines, triples for triangles.
pub struct WebGlIndexes {
    pub lines: Vec<u16>,
    pub triangles: Vec<u16>,
}

/// The contents of a geometry buffer as values.
pub struct GeometryView {
    pub points: Seq<Point>,
    pub colors: Seq<WebGlColor>,
    pub lines: Seq<u16>,
    pub triangles: Seq<u16>,
    pub frame: Frame,
    pub options: CandleOptions,
}

/// Does the candle's wick reach beyond its body?
pub open spec fn has_wick(h: Hlocv) -> bool {
    h.o != h.c && (h.h > body_high(h) || h.l < body_low(h))
}

pub open spec fn body_high(h: Hlocv) -> i64 {
    if h.o > h.c {
        h.o
    } else {
        h.c
    }
}

pub open spec fn body_low(h: Hlocv) -> i64 {
    if h.o > h.c {
        h.c
    } else {
        h.o
    }
}

/// Red when the price fell, green otherwise (a doji too).
pub open spec fn candle_color(h: Hlocv) -> WebGlColor {
    if h.o > h.c {
        bearish_color()
    } else {
        bullish_color()
    }
}

pub open spec fn candle_vertex_count(h: Hlocv) -> int {
    if has_wick(h) {
        6
    } else {
        4
    }
}

pub open spec fn pt(x: int, y: int) -> Point {
    Point { x: x as i64, y: y as i64, z: CANDLE_DEPTH }
}

/// The body quad: open edge left to right, then close edge right to left.
pub open spec fn body_points(h: Hlocv, x: int, w: int) -> Seq<Point> {
    seq![pt(x - w, h.o as int), pt(x + w, h.o as int), pt(x + w, h.c as int), pt(x - w, h.c as int)]
}

/// The vertices of a candle at `x` with half-width `w`. A doji is a vertical
/// line from high to low and a horizontal line from open to close; any other
/// candle is a wick over only the part of `[low, high]` outside the body, if
/// any, and a body quad.
pub open spec fn candle_points(h: Hlocv, x: int, w: int) -> Seq<Point> {
    if h.o == h.c {
        seq![pt(x, h.h as int), pt(x, h.l as int), pt(x - w, h.o as int), pt(x + w, h.c as int)]
    } else if has_wick(h) {
        let y1 = if h.h > body_high(h) { h.h } else { body_low(h) };
        let y2 = if h.l < body_low(h) { h.l } else { body_high(h) };
        seq![pt(x, y1 as int), pt(x, y2 as int)] + body_points(h, x, w)
    } else {
        body_points(h, x, w)
    }
}

pub open spec fn candle_colors(h: Hlocv) -> Seq<WebGlColor> {
    Seq::new(candle_vertex_count(h) as nat, |i: int| candle_color(h))
}

/// Line indices of a candle whose first vertex is `base`.
pub open spec fn candle_lines(h: Hlocv, base: int) -> Seq<u16> {
    if h.o == h.c {
        seq![base as u16, (base + 1) as u16, (base + 2) as u16, (base + 3) as u16]
    } else if has_wick(h) {
        seq![base as u16, (base + 1) as u16]
    } else {
        Seq::empty()
    }
}

/// Triangle indices of a candle whose first vertex is `base`: the body quad
/// `q, q+1, q+2, q+3` as the triangles `(q, q+1, q+2)` and `(q, q+2, q+3)`.
pub open spec fn candle_triangles(h: Hlocv, base: int) -> Seq<u16> {
    if h.o == h.c {
        Seq::empty()
    } else {
        let q = if has_wick(h) { base + 2 } else { base };
        seq![q as u16, (q + 1) as u16, (q + 2) as u16, q as u16, (q + 2) as u16, (q + 3) as u16]
    }
}

/// `g` with the candle of `h` at `x` appended.
pub open spec fn with_candle(g: GeometryView, h: Hlocv, x: int) -> GeometryView {
    let base = g.points.len() as int;
    GeometryView {
        points: g.points + candle_points(h, x, g.options.radius as int),
        colors: g.colors + candle_colors(h),
        lines: g.lines + candle_lines(h, base),
        triangles: g.triangles + candle_triangles(h, base),
        frame: g.frame,
        options: g.options,
    }
}

/// `g` with a candle for each item of `s`, the `i`-th at `i * interval`.
pub open spec fn with_series(g: GeometryView, s: Seq<TradeItem>) -> GeometryView
    decreases s.len(),
{
    if s.len() == 0 {
        g
    } else {
        with_candle(
            with_series(g, s.drop_last()),
            s.last().hlocv,
            (s.len() - 1) * g.options.interval,
        )
    }
}

pub open spec fn series_vertex_count(s: Seq<TradeItem>) -> int
    decreases s.len(),
{
    if s.len() == 0 {
        0
    } else {
        series_vertex_count(s.drop_last()) + candle_vertex_count(s.last().hlocv)
    }
}

/// The number of grid lines from `origin` in steps of `step` below `end`.
pub open spec fn grid_line_count(origin: int, step: int, end: int) -> int {
    if end <= origin {
        0
    } else {
        (end - origin + step - 1) / step
    }
}

/// The vertices of the first `n` grid lines: the `k`-th runs from `x0` to `x1`
/// at height `origin + k * step`.
pub open spec fn grid_points(x0: i64, x1: i64, origin: int, step: int, n: int) -> Seq<Point> {
    Seq::new(
        (2 * n) as nat,
        |i: int|
            Point {
                x: if i % 2 == 0 { x0 } else { x1 },
                y: (origin + (i / 2) * step) as i64,
                z: GRID_DEPTH,
            },
    )
}

/// `base, base + 1, ..., base + len - 1` as indices.
pub open spec fn index_run(base: int, len: int) -> Seq<u16> {
    Seq::new(len as nat, |i: int| (base + i) as u16)
}

/// `g` with `n` grid lines from `origin` in steps of `step`, spanning the
/// buffer frame's time axis.
pub open spec fn with_grid(g: GeometryView, origin: int, step: int, n: int) -> GeometryView {
    GeometryView {
        points: g.points + grid_points(g.frame.x.start, g.frame.x.end, origin, step, n),
        colors: g.colors + Seq::new((2 * n) as nat, |i: int| grid_color()),
        lines: g.lines + index_run(g.points.len() as int, 2 * n),
        triangles: g.triangles,
        frame: g.frame,
        options: g.options,
    }
}

/// Vertices, colors and index lists ready for upload, with the frame and
/// candle options they were built under.
pub struct ChartGlData {
    points: Vec<Point>,
    colors: Vec<WebGlColor>,
    indexes: WebGlIndexes,
    frame: Frame,
    interval: TradeInterval,
    candle_options: CandleOptions,
}

impl View for ChartGlData {
    type V = GeometryView;

    closed spec fn view(&self) -> GeometryView {
        GeometryView {
            points: self.points@,
            colors: self.colors@,
            lines: self.indexes.lines@,
            triangles: self.indexes.triangles@,
            frame: self.frame,
            options: self.candle_options,
        }
    }
}

/// A buffer is well formed when positions and colors align, its vertices fit
/// 16-bit indices, and every index names a vertex.
pub open spec fn geometry_wf(g: GeometryView) -> bool {
    &&& g.points.len() == g.colors.len()
    &&& g.points.len() <= MAX_VERTICES
    &&& forall|i: int| 0 <= i < g.lines.len() ==> #[trigger] g.lines[i] < g.points.len()
    &&& forall|i: int| 0 <= i < g.triangles.len() ==> #[trigger] g.triangles[i] < g.points.len()
}

impl ChartGlData {
    /// An empty buffer over the default frame.
    pub fn new() -> (r: ChartGlData)
        ensures
            geometry_wf(r@),
            r@.points.len() == 0,
            r@.lines.len() == 0,
            r@.triangles.len() == 0,
            r@.frame == (Frame { x: RangeF32 { start: 0, end: 0 }, y: RangeF32 { start: 0, end: 0 } }),
            r@.options == (CandleOptions { interval: DEFAULT_CANDLE_INTERVAL, radius: DEFAULT_CANDLE_RADIUS }),
    {
        ChartGlData {
            points: Vec::new(),
            colors: Vec::new(),
            indexes: WebGlIndexes { lines: Vec::new(), triangles: Vec::new() },
            frame: Frame::default(),
            interval: TradeInterval::Day,
            candle_options: CandleOptions::default(),
        }
    }

    pub fn points(&self) -> (r: &[Point])
        ensures
            r@ == self@.points,
    {
        self.points.as_slice()
    }

    pub fn colors(&self) -> (r: &[WebGlColor])
        ensures
            r@ == self@.colors,
    {
        self.colors.as_slice()
    }

    pub fn lines(&self) -> (r: &[u16])
        ensures
            r@ == self@.lines,
    {
        self.indexes.lines.as_slice()
    }

    pub fn triangles(&self) -> (r: &[u16])
        ensures
            r@ == self@.triangles,
    {
        self.indexes.triangles.as_slice()
    }

    pub fn frame(&self) -> (r: &Frame)
        ensures
            *r == self@.frame,
    {
        &self.frame
    }

    pub fn candle_options(&self) -> (r: &CandleOptions)
        ensures
            *r == self@.options,
    {
        &self.candle_options
    }

    pub fn interval(&self) -> (r: &TradeInterval) {
        &self.interval
    }

    /// Appends a vertex and records its index in the line list.
    fn push_line_vertex(&mut self, p: Point, c: WebGlColor)
        requires
            geometry_wf(old(self)@),
            old(self)@.points.len() < MAX_VERTICES,
        ensures
            geometry_wf(final(self)@),
            final(self)@ == (GeometryView {
                points: old(self)@.points.push(p),
                colors: old(self)@.colors.push(c),
                lines: old(self)@.lines.push(old(self)@.points.len() as u16),
                ..old(self)@
            }),
    {
        self.indexes.lines.push(self.points.len() as u16);
        self.points.push(p);
        self.colors.push(c);
    }

    /// Appends a vertex and records its index in the triangle list.
    fn push_triangle_vertex(&mut self, p: Point, c: WebGlColor)
        requires
            geometry_wf(old(self)@),
            old(self)@.points.len() < MAX_VERTICES,
        ensures
            geometry_wf(final(self)@),
            final(self)@ == (GeometryView {
                points: old(self)@.points.push(p),
                colors: old(self)@.colors.push(c),
                triangles: old(self)@.triangles.push(old(self)@.points.len() as u16),
                ..old(self)@
            }),
    {
        self.indexes.triangles.push(self.points.len() as u16);
        self.points.push(p);
        self.colors.push(c);
    }
}

impl<'a> TradeItemPositioned<'a> {
    /// Appends this candle to `data` (see `with_candle`), or fails with
    /// `CapacityExceeded`, leaving `data` unchanged, when its vertices do not fit.
    pub fn visualize(&self, data: &mut ChartGlData) -> (r: Result<(), ChartError>)
        requires
            geometry_wf(old(data)@),
            self.position + old(data)@.options.radius <= i64::MAX,
        ensures
            geometry_wf(final(data)@),
            r.is_err() <==> old(data)@.points.len() + candle_vertex_count(self.item.hlocv)
                > MAX_VERTICES,
            r.is_err() ==> r == Err::<(), ChartError>(ChartError::CapacityExceeded) && final(data)@
                == old(data)@,
            r.is_ok() ==> final(data)@ == with_candle(
                old(data)@,
                self.item.hlocv,
                self.position as int,
            ),
    {
        let x: i64 = self.position as i64;
        let width: i64 = data.candle_options.radius as i64;
        let z: i64 = CANDLE_DEPTH;
        let h: Hlocv = self.item.hlocv;
        let ghost g0 = data@;
        let ghost base = g0.points.len() as int;
        let body_high: i64 = if h.o > h.c { h.o } else { h.c };
        let body_low: i64 = if h.o > h.c { h.c } else { h.o };
        let wick: bool = h.o != h.c && (h.h > body_high || h.l < body_low);
        let needed: usize = if wick { 6 } else { 4 };
        if data.points.len() > MAX_VERTICES - needed {
            return Err(ChartError::CapacityExceeded);
        }
        if h.o == h.c {
            let color = WebGlColor { r: 10, g: 60, b: 10 };
            data.push_line_vertex(Point { x, y: h.h, z }, color);
            data.push_line_vertex(Point { x, y: h.l, z }, color);
            data.push_line_vertex(Point { x: x - width, y: h.o, z }, color);
            data.push_line_vertex(Point { x: x + width, y: h.c, z }, color);
        } else {
            let color = if h.o > h.c {
                WebGlColor { r: 90, g: 10, b: 10 }
            } else {
                WebGlColor { r: 10, g: 60, b: 10 }
            };
            if wick {
                let y1: i64 = if h.h > body_high { h.h } else { body_low };
                let y2: i64 = if h.l < body_low { h.l } else { body_high };
                data.push_line_vertex(Point { x, y: y1, z }, color);
                data.push_line_vertex(Point { x, y: y2, z }, color);
            }
            let ghost q = data@.points.len() as int;
            data.push_triangle_vertex(Point { x: x - width, y: h.o, z }, color);
            data.push_triangle_vertex(Point { x: x + width, y: h.o, z }, color);
            data.push_triangle_vertex(Point { x: x + width, y: h.c, z }, color);
            let idx: u16 = data.points.len() as u16;
            data.indexes.triangles.push(idx - 3);
            data.indexes.triangles.push(idx - 1);
            data.indexes.triangles.push(idx);
            data.points.push(Point { x: x - width, y: h.c, z });
            data.colors.push(color);
        }
        proof {
            let g = data@;
            let w = g0.options.radius as int;
            assert(g.points =~= g0.points + candle_points(h, x as int, w));
            assert(g.colors =~= g0.colors + candle_colors(h));
            assert(g.lines =~= g0.lines + candle_lines(h, base));
            assert(g.triangles =~= g0.triangles + candle_triangles(h, base));
        }
        Ok(())
    }
}

/// Every candle takes at least four vertices.
pub proof fn lemma_series_count_lower(s: Seq<TradeItem>)
    ensures
        series_vertex_count(s) >= 4 * s.len(),
    decreases s.len(),
{
    if s.len() > 0 {
        lemma_series_count_lower(s.drop_last());
    }
}

/// A prefix of a series takes no more vertices than the whole.
pub proof fn lemma_series_count_prefix(s: Seq<TradeItem>, i: int)
    requires
        0 <= i <= s.len(),
    ensures
        series_vertex_count(s.take(i)) <= series_vertex_count(s),
    decreases s.len(),
{
    if i < s.len() {
        assert(s.take(i) =~= s.drop_last().take(i));
        lemma_series_count_prefix(s.drop_last(), i);
    } else {
        assert(s.take(i) =~= s);
    }
}

impl TradeData {
    /// Appends a candle for each item in order, the `i`-th at `i` times the
    /// buffer's candle interval (see `with_series`). Fails with
    /// `CapacityExceeded` when the candles do not fit.
    pub fn visualize(&self, data: &mut ChartGlData) -> (r: Result<(), ChartError>)
        requires
            geometry_wf(old(data)@),
        ensures
            geometry_wf(final(data)@),
            r.is_err() <==> old(data)@.points.len() + series_vertex_count(self@) > MAX_VERTICES,
            r.is_err() ==> r == Err::<(), ChartError>(ChartError::CapacityExceeded),
            r.is_ok() ==> final(data)@ == with_series(old(data)@, self@),
    {
        let items: &[TradeItem] = self.iter_data();
        let ghost g0 = data@;
        let ghost s = self@;
        let interval: u64 = data.candle_options.interval as u64;
        let mut i: usize = 0;
        while i < items.len()
            invariant
                items@ == s,
                s == self@,
                g0 == old(data)@,
                0 <= i <= s.len(),
                geometry_wf(data@),
                data@ == with_series(g0, s.take(i as int)),
                data@.options == g0.options,
                data@.points.len() == g0.points.len() + series_vertex_count(s.take(i as int)),
                interval == g0.options.interval,
            decreases s.len() - i,
        {
            proof {
                lemma_series_count_lower(s.take(i as int));
                assert(i <= 16384);
                assert(i * interval <= 16384 * 4294967295) by (nonlinear_arith)
                    requires
                        i <= 16384,
                        interval <= 4294967295,
                ;
                assert(s.take(i + 1).drop_last() =~= s.take(i as int));
                assert(s.take(i + 1).last() == s[i as int]);
            }
            let position: u64 = i as u64 * interval;
            let candle = TradeItemPositioned::new(&items[i], position);
            let res = candle.visualize(data);
            if res.is_err() {
                proof {
                    assert(s.take(i + 1).drop_last() =~= s.take(i as int));
                    assert(series_vertex_count(s.take(i + 1)) == series_vertex_count(s.take(i as int))
                        + candle_vertex_count(s[i as int].hlocv));
                    lemma_series_count_prefix(s, i + 1);
                }
                return Err(ChartError::CapacityExceeded);
            }
            i = i + 1;
        }
        proof {
            assert(s.take(i as int) =~= s);
        }
        Ok(())
    }
}

impl Frame {
    /// Appends one horizontal line per grid level of the price axis, from the
    /// grid origin up to below `y.end`, each spanning the buffer frame's time
    /// axis (see `with_grid`). Fails with `DegenerateRange` when the price axis
    /// has no grid, and with `CapacityExceeded` when the lines do not fit; on
    /// failure `data` is unchanged.
    pub fn visualize(&self, data: &mut ChartGlData) -> (r: Result<(), ChartError>)
        requires
            geometry_wf(old(data)@),
            !self.y.spec_is_empty() ==> self.y.within_limits(),
        ensures
            geometry_wf(final(data)@),
            !self.y.has_grid() ==> r == Err::<(), ChartError>(ChartError::DegenerateRange),
            r.is_err() ==> final(data)@ == old(data)@,
            self.y.has_grid() ==> ({
                let step = grid_step(self.y.end - self.y.start);
                let origin = grid_origin(self.y.start as int, step);
                let n = grid_line_count(origin, step, self.y.end as int);
                &&& r.is_err() <==> old(data)@.points.len() + 2 * n > MAX_VERTICES
                &&& r.is_err() ==> r == Err::<(), ChartError>(ChartError::CapacityExceeded)
                &&& r.is_ok() ==> final(data)@ == with_grid(old(data)@, origin, step, n)
            }),
    {
        let (origin, step) = match self.y.grid_start_step() {
            Some(v) => v,
            None => {
                return Err(ChartError::DegenerateRange);
            },
        };
        let ghost g0 = data@;
        let end: i64 = self.y.end;
        proof {
            let o = origin as int;
            let st = step as int;
            let e = end as int;
            lemma_grid_covers(self.y.start as int, e);
            vstd::arithmetic::div_mod::lemma_fundamental_div_mod(e - o + st - 1, st);
            vstd::arithmetic::div_mod::lemma_mod_pos_bound(e - o + st - 1, st);
            let q = (e - o + st - 1) / st;
            assert(q <= 26 && q * st <= e - o + st - 1) by (nonlinear_arith)
                requires
                    o + 26 * st > e,
                    e > o,
                    st >= 1,
                    st * q + (e - o + st - 1) % st == e - o + st - 1,
                    (e - o + st - 1) % st >= 0,
            ;
        }
        let n: i64 = (end - origin + step - 1) / step;
        let needed: usize = 2 * n as usize;
        if data.points.len() > MAX_VERTICES - needed {
            return Err(ChartError::CapacityExceeded);
        }
        let x0: i64 = data.frame.x.start;
        let x1: i64 = data.frame.x.end;
        let color = WebGlColor { r: 99, g: 99, b: 99 };
        let mut k: i64 = 0;
        while k < n
            invariant
                g0 == old(data)@,
                color == grid_color(),
                0 <= k <= n <= 26,
                n == grid_line_count(origin as int, step as int, end as int),
                n * step <= end - origin + step - 1,
                1 <= step,
                -2 * COORD_LIMIT <= origin <= end <= COORD_LIMIT,
                x0 == g0.frame.x.start,
                x1 == g0.frame.x.end,
                geometry_wf(data@),
                data@.points.len() + 2 * (n - k) <= MAX_VERTICES,
                data@ == with_grid(g0, origin as int, step as int, k as int),
            decreases n - k,
        {
            proof {
                assert(k * step <= (n - 1) * step) by (nonlinear_arith)
                    requires
                        k <= n - 1,
                        step >= 1,
                ;
                assert((n - 1) * step == n * step - step) by (nonlinear_arith);
            }
            let y: i64 = origin + k * step;
            let ghost before = data@;
            data.push_line_vertex(Point { x: x0, y, z: GRID_DEPTH }, color);
            data.push_line_vertex(Point { x: x1, y, z: GRID_DEPTH }, color);
            k = k + 1;
            proof {
                let g = data@;
                let pts = grid_points(x0, x1, origin as int, step as int, k as int);
                let prev = grid_points(x0, x1, origin as int, step as int, k - 1);
                assert forall|i: int| 0 <= i < pts.len() implies pts[i] == (prev
                    + seq![Point { x: x0, y, z: GRID_DEPTH }, Point { x: x1, y, z: GRID_DEPTH }])[i] by {
                    if i >= 2 * (k - 1) {
                        assert(i / 2 == k - 1);
                    }
                }
                assert(g.points =~= g0.points + pts);
                let cs = Seq::new((2 * k) as nat, |i: int| grid_color());
                let prev_cs = Seq::new((2 * (k - 1)) as nat, |i: int| grid_color());
                assert(before.colors =~= g0.colors + prev_cs);
                assert(cs =~= prev_cs.push(color).push(color));
                assert(g.colors =~= g0.colors + cs);
                assert(g.lines =~= g0.lines + index_run(g0.points.len() as int, 2 * k));
            }
        }
        Ok(())
    }
}

/// The frame of a whole series: slots `[0, len * interval)` by its value range.
pub open spec fn data_frame(s: Seq<TradeItem>, options: CandleOptions) -> Frame {
    Frame {
        x: RangeF32 { start: 0, end: (s.len() * options.interval) as i64 },
        y: value_range(s),
    }
}

/// A buffer with no vertices, built under `frame` and `options`.
pub open spec fn empty_geometry(frame: Frame, options: CandleOptions) -> GeometryView {
    GeometryView {
        points: Seq::empty(),
        colors: Seq::empty(),
        lines: Seq::empty(),
        triangles: Seq::empty(),
        frame,
        options,
    }
}

/// Appending candles keeps a buffer's frame and options.
pub proof fn lemma_with_series_keeps(g: GeometryView, s: Seq<TradeItem>)
    ensures
        with_series(g, s).frame == g.frame,
        with_series(g, s).options == g.options,
        with_series(g, s).points.len() == g.points.len() + series_vertex_count(s),
    decreases s.len(),
{
    if s.len() > 0 {
        lemma_with_series_keeps(g, s.drop_last());
    }
}

impl ChartGlData {
    /// A buffer holding the candles of `trade_data`, built under its data frame
    /// (see `data_frame`). Fails with `CapacityExceeded` when the candles do not
    /// fit.
    pub fn from_trade_data(trade_data: TradeData, candle_options: CandleOptions) -> (r: Result<
        ChartGlData,
        ChartError,
    >)
        requires
            trade_data.wf(),
        ensures
            r.is_err() <==> series_vertex_count(trade_data@) > MAX_VERTICES,
            r.is_err() ==> r == Err::<ChartGlData, ChartError>(ChartError::CapacityExceeded),
            r matches Ok(d) ==> geometry_wf(d@) && d@ == with_series(
                empty_geometry(data_frame(trade_data@, candle_options), candle_options),
                trade_data@,
            ),
    {
        let len: usize = trade_data.len();
        if len > MAX_VERTICES / 4 {
            proof {
                lemma_series_count_lower(trade_data@);
            }
            return Err(ChartError::CapacityExceeded);
        }
        assert(len as u64 * candle_options.interval as u64 <= 16384 * 4294967295) by (nonlinear_arith)
            requires
                len <= 16384,
                candle_options.interval <= 4294967295,
        ;
        let end: i64 = (len as u64 * candle_options.interval as u64) as i64;
        let frame: Frame = Frame::new(RangeF32::new(0, end), *trade_data.range());
        let mut data: ChartGlData = ChartGlData {
            points: Vec::new(),
            colors: Vec::new(),
            indexes: WebGlIndexes { lines: Vec::new(), triangles: Vec::new() },
            frame,
            interval: TradeInterval::Day,
            candle_options,
        };
        assert(data@ == empty_geometry(data_frame(trade_data@, candle_options), candle_options));
        match trade_data.visualize(&mut data) {
            Ok(()) => Ok(data),
            Err(e) => Err(e),
        }
    }
}

} // verus!

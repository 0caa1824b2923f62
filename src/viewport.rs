use vstd::prelude::*;
use crate::frame::{frame_union, union, Frame};
use crate::geometry::{
    data_frame, empty_geometry, grid_line_count, lemma_with_series_keeps, series_vertex_count,
    with_grid, with_series, CandleOptions, ChartError, ChartGlData, GeometryView, MAX_VERTICES,
};
use crate::interval::{grid_origin, grid_step, RangeF32, PRICE_LIMIT};
use crate::tradedata::{TradeData, TradeItem};

verus! {

/// The visible part of the chart and the canvas it is drawn on.
pub struct Viewport {
    pub frame: Frame,
    pub canvas_size: (u32, u32),
    pub interval: u32,
}

/// The frame first shown for data frame `df` on a canvas `w` pixels wide: the
/// last `w` slot units, and the value range with half its height added above
/// and below.
pub open spec fn visible_frame(df: Frame, w: u32) -> Frame {
    let extra = (df.y.end - df.y.start) / 2;
    Frame {
        x: RangeF32 { start: (df.x.end - w) as i64, end: df.x.end },
        y: RangeF32 { start: (df.y.start - extra) as i64, end: (df.y.end + extra) as i64 },
    }
}

/// What loading series `s` with `options` on a canvas `w` pixels wide gives:
/// the buffer with the candles and the grid of the union of the data frame and
/// the visible frame, and the visible frame; or the first error.
pub open spec fn load_outcome(s: Seq<TradeItem>, options: CandleOptions, w: u32) -> Result<
    (GeometryView, Frame),
    ChartError,
> {
    let df = data_frame(s, options);
    let vf = visible_frame(df, w);
    let u = frame_union(df, vf);
    let g = with_series(empty_geometry(df, options), s);
    let step = grid_step(u.y.end - u.y.start);
    let origin = grid_origin(u.y.start as int, step);
    let n = grid_line_count(origin, step, u.y.end as int);
    if series_vertex_count(s) > MAX_VERTICES {
        Err(ChartError::CapacityExceeded)
    } else if df.y.spec_is_empty() {
        Err(ChartError::DegenerateRange)
    } else if df.y.start < -PRICE_LIMIT || df.y.end > PRICE_LIMIT {
        Err(ChartError::OutOfRange)
    } else if !u.y.has_grid() {
        Err(ChartError::DegenerateRange)
    } else if g.points.len() + 2 * n > MAX_VERTICES {
        Err(ChartError::CapacityExceeded)
    } else {
        Ok((with_grid(g, origin, step, n), vf))
    }
}

impl Viewport {
    /// Shifting the time axis by `slots` slots stays within `i64`.
    pub open spec fn pan_fits(&self, slots: int) -> bool {
        let d = slots * self.interval;
        &&& i64::MIN <= d <= i64::MAX
        &&& i64::MIN <= self.frame.x.start + d <= i64::MAX
        &&& i64::MIN <= self.frame.x.end + d <= i64::MAX
    }

    /// The viewport with its time axis shifted by `slots` slots.
    pub open spec fn panned(&self, slots: int) -> Viewport {
        let d = slots * self.interval;
        Viewport {
            frame: Frame {
                x: RangeF32 {
                    start: (self.frame.x.start + d) as i64,
                    end: (self.frame.x.end + d) as i64,
                },
                y: self.frame.y,
            },
            canvas_size: self.canvas_size,
            interval: self.interval,
        }
    }

    /// A viewport showing `[0, width)` by `[0, height)` on a canvas of that size.
    pub fn new(width: u32, height: u32) -> (r: Viewport)
        ensures
            r.frame == (Frame {
                x: RangeF32 { start: 0, end: width as i64 },
                y: RangeF32 { start: 0, end: height as i64 },
            }),
            r.canvas_size == (width, height),
            r.interval == crate::geometry::DEFAULT_CANDLE_INTERVAL,
    {
        Viewport {
            frame: Frame::new(RangeF32::new(0, width as i64), RangeF32::new(0, height as i64)),
            canvas_size: (width, height),
            interval: crate::geometry::DEFAULT_CANDLE_INTERVAL,
        }
    }

    /// Builds the buffer for `trade_data` and shows its most recent part (see
    /// `load_outcome`). On failure the viewport is unchanged.
    pub fn load(&mut self, trade_data: TradeData, options: CandleOptions) -> (r: Result<
        ChartGlData,
        ChartError,
    >)
        requires
            trade_data.wf(),
        ensures
            r matches Ok(d) ==> load_outcome(trade_data@, options, old(self).canvas_size.0) == Ok::<
                (GeometryView, Frame),
                ChartError,
            >((d@, final(self).frame)) && final(self).canvas_size == old(self).canvas_size
                && final(self).interval == options.interval,
            r matches Err(e) ==> load_outcome(trade_data@, options, old(self).canvas_size.0) == Err::<
                (GeometryView, Frame),
                ChartError,
            >(e) && *final(self) == *old(self),
    {
        let ghost s = trade_data@;
        let mut data: ChartGlData = match ChartGlData::from_trade_data(trade_data, options) {
            Ok(d) => d,
            Err(e) => {
                return Err(e);
            },
        };
        proof {
            lemma_with_series_keeps(empty_geometry(data_frame(s, options), options), s);
            crate::geometry::lemma_series_count_lower(s);
            assert(0 <= s.len() * options.interval <= 16384 * 4294967295) by (nonlinear_arith)
                requires
                    s.len() <= 16384,
                    options.interval <= 4294967295,
            ;
        }
        let df: Frame = *data.frame();
        let height: u64 = match df.height() {
            Some(h) => h,
            None => {
                return Err(ChartError::DegenerateRange);
            },
        };
        if df.y.start < -PRICE_LIMIT || df.y.end > PRICE_LIMIT {
            return Err(ChartError::OutOfRange);
        }
        let extra: i64 = (height / 2) as i64;
        let vf: Frame = Frame::new(
            RangeF32::new(df.x.end - self.canvas_size.0 as i64, df.x.end),
            RangeF32::new(df.y.start - extra, df.y.end + extra),
        );
        assert(vf == visible_frame(df, self.canvas_size.0));
        let u: Frame = union(&df, &vf);
        match u.visualize(&mut data) {
            Ok(()) => {},
            Err(e) => {
                return Err(e);
            },
        }
        self.frame = vf;
        self.interval = options.interval;
        Ok(data)
    }

    /// Pans the time axis by `slots` slots; the price axis is kept.
    pub fn shift(&mut self, slots: i64)
        requires
            old(self).pan_fits(slots as int),
        ensures
            *final(self) == old(self).panned(slots as int),
    {
        let delta: i64 = slots * self.interval as i64;
        self.frame.range_x_mut().shift(delta);
    }

    /// Reconciles the viewport with the canvas size: a new width keeps the
    /// right edge of the time axis and moves its left edge to `end - width`; a
    /// new height is recorded only. Returns whether the size changed.
    pub fn adjust_viewport(&mut self, width: u32, height: u32) -> (r: bool)
        requires
            old(self).frame.x.end - width >= i64::MIN,
        ensures
            r == (width != old(self).canvas_size.0 || height != old(self).canvas_size.1),
            final(self).canvas_size == (width, height),
            final(self).frame.y == old(self).frame.y,
            final(self).interval == old(self).interval,
            final(self).frame.x.end == old(self).frame.x.end,
            width != old(self).canvas_size.0 ==> final(self).frame.x.start == old(self).frame.x.end
                - width,
            width == old(self).canvas_size.0 ==> final(self).frame.x == old(self).frame.x,
    {
        let width_changed: bool = self.canvas_size.0 != width;
        let height_changed: bool = self.canvas_size.1 != height;
        if width_changed {
            self.canvas_size.0 = width;
            self.frame.range_x_mut().set_width_from_high(width as i64);
        }
        if height_changed {
            self.canvas_size.1 = height;
        }
        width_changed || height_changed
    }

    /// The render translation: the lower-left corner of the visible frame.
    pub fn translation(&self) -> (r: (i64, i64))
        ensures
            r == (self.frame.x.start, self.frame.y.start),
    {
        (self.frame.x.start, self.frame.y.start)
    }

    /// Width and height of the visible frame, from which the render scale
    /// `2 / size` is taken; `DegenerateRange` if either is empty.
    pub fn scale_extent(&self) -> (r: Result<(u64, u64), ChartError>)
        ensures
            (self.frame.x.spec_is_empty() || self.frame.y.spec_is_empty()) ==> r == Err::<
                (u64, u64),
                ChartError,
            >(ChartError::DegenerateRange),
            !(self.frame.x.spec_is_empty() || self.frame.y.spec_is_empty()) ==> r == Ok::<
                (u64, u64),
                ChartError,
            >(
                (
                    (self.frame.x.end - self.frame.x.start) as u64,
                    (self.frame.y.end - self.frame.y.start) as u64,
                ),
            ),
    {
        match (self.frame.width(), self.frame.height()) {
            (Some(w), Some(h)) => Ok((w, h)),
            _ => Err(ChartError::DegenerateRange),
        }
    }
}

/// Panning by `n` slots and then by `-n` slots restores the viewport.
pub proof fn lemma_pan_round_trip(v: Viewport, n: int)
    requires
        v.pan_fits(n),
        v.panned(n).pan_fits(-n),
    ensures
        v.panned(n).panned(-n) == v,
{
    assert((-n) * v.interval == -(n * v.interval)) by (nonlinear_arith);
}

} // verus!

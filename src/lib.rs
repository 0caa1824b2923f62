//! Candlestick chart geometry: value ranges with "nice" grid steps, two-axis
//! frames, a trade series with running bounds, and the vertex/index buffers
//! that a renderer draws.
//!
//! Every coordinate is a fixed-point integer. Along the time axis one unit is
//! one pixel of slot spacing; along the price axis one unit is one tick, a
//! millionth of a price unit (see `TICKS_PER_UNIT`).
mod interval;

pub use interval::{RangeF32, COORD_LIMIT, PRICE_LIMIT, TICKS_PER_UNIT};
mod frame;

pub use frame::{union, Frame};
mod tradedata;

pub use tradedata::{Hlocv, Period, TradeData, TradeInterval, TradeItem, TradeItemPositioned};
mod geometry;

pub use geometry::{
    CandleOptions, ChartError, ChartGlData, Point, WebGlColor, WebGlIndexes, MAX_VERTICES,
};
mod viewport;

pub use viewport::Viewport;
mod moex;

pub use moex::{get_datetime, get_value, ColumnPositions, Moex, MoexHistory, MoexResponse, MoexValue};

use candle_chart::{
    union, CandleOptions, ChartError, ChartGlData, Frame, Hlocv, Point, RangeF32, TradeData,
    TradeInterval, TradeItem, TradeItemPositioned, Viewport, WebGlColor, MAX_VERTICES,
    TICKS_PER_UNIT,
};

const T: i64 = TICKS_PER_UNIT;

fn grid(start: i64, end: i64) -> Option<(i64, i64)> {
    RangeF32::new(start, end).grid_start_step()
}

#[test]
fn grid_step_hundred_to_two_hundred() {
    assert_eq!(grid(100 * T, 200 * T), Some((100 * T, 10 * T)));
}

#[test]
fn grid_step_ten_to_twenty() {
    assert_eq!(grid(10 * T, 20 * T), Some((10 * T, T)));
}

#[test]
fn grid_step_one_to_two() {
    assert_eq!(grid(T, 2 * T), Some((T, T / 10)));
}

#[test]
fn grid_step_tenth_to_fifth() {
    assert_eq!(grid(T / 10, T / 5), Some((T / 10, T / 100)));
}

#[test]
fn grid_step_multipliers() {
    // size 30: decade 1, multiplier 2, step 2
    assert_eq!(grid(7, 37), Some((6, 2)));
    // size 70: multiplier 5, step 5
    assert_eq!(grid(-7, 63), Some((-10, 5)));
    // size 199: multiplier 1, step 10
    assert_eq!(grid(-1, 198), Some((-10, 10)));
}

#[test]
fn grid_step_covers_range() {
    let (start, end) = (123_456, 987_654);
    let (origin, step) = grid(start, end).unwrap();
    assert!(origin <= start && start < origin + step);
    assert!(10 * step <= end - start && end - start < 25 * step);
    let mut m = step;
    while m % 10 == 0 {
        m /= 10;
    }
    assert!(m == 1 || m == 2 || m == 5);
}

#[test]
fn grid_step_degenerate() {
    assert_eq!(grid(5, 5), None);
    assert_eq!(grid(9, 3), None);
    assert_eq!(grid(0, 9), None);
    assert_eq!(RangeF32::new_with_max_rev().grid_start_step(), None);
}

#[test]
fn range_size_and_shift() {
    let mut r = RangeF32::new(-5, 20);
    assert_eq!(r.size(), Some(25));
    assert!(!r.is_empty());
    r.shift(10);
    assert_eq!((r.start(), r.end()), (5, 30));
    r.set_width_from_high(7);
    assert_eq!((r.start(), r.end()), (23, 30));
    assert_eq!(RangeF32::new(3, 3).size(), None);
}

#[test]
fn consider_order_independent() {
    let pairs = [(5, 9), (-3, 2), (7, 40), (0, 0)];
    let mut forward = RangeF32::new_with_max_rev();
    for &(l, h) in pairs.iter() {
        forward.consider(l, h);
    }
    let mut backward = RangeF32::new_with_max_rev();
    for &(l, h) in pairs.iter().rev() {
        backward.consider(l, h);
    }
    let mut sorted_pairs = pairs;
    sorted_pairs.sort();
    let mut sorted = RangeF32::new_with_max_rev();
    for &(l, h) in sorted_pairs.iter() {
        sorted.consider(l, h);
    }
    assert_eq!(forward, RangeF32::new(-3, 40));
    assert_eq!(forward, backward);
    assert_eq!(forward, sorted);
}

#[test]
fn union_laws() {
    let a = Frame::new(RangeF32::new(0, 10), RangeF32::new(5, 6));
    let b = Frame::new(RangeF32::new(-4, 3), RangeF32::new(2, 30));
    let c = Frame::new(RangeF32::new(8, 12), RangeF32::new(-1, 1));
    assert_eq!(union(&a, &b), Frame::new(RangeF32::new(-4, 10), RangeF32::new(2, 30)));
    assert_eq!(union(&a, &b), union(&b, &a));
    assert_eq!(union(&union(&a, &b), &c), union(&a, &union(&b, &c)));
    assert_eq!(union(&a, &a), a);
}

#[test]
fn frame_width_height() {
    let f = Frame::new(RangeF32::new(0, 10), RangeF32::new(5, 5));
    assert_eq!(f.width(), Some(10));
    assert_eq!(f.height(), None);
    assert_eq!(Frame::default().width(), None);
}

fn item(h: i64, l: i64, o: i64, c: i64) -> TradeItem {
    TradeItem::new(0, h * T, l * T, o * T, c * T, 1000)
}

fn draw_one(it: &TradeItem, position: u64) -> ChartGlData {
    let mut data = ChartGlData::new();
    TradeItemPositioned::new(it, position).visualize(&mut data).unwrap();
    data
}

const GREEN: WebGlColor = WebGlColor { r: 10, g: 60, b: 10 };
const RED: WebGlColor = WebGlColor { r: 90, g: 10, b: 10 };

fn p(x: i64, y: i64) -> Point {
    Point { x, y: y * T, z: 0 }
}

#[test]
fn doji_candle() {
    let data = draw_one(&item(110, 90, 100, 100), 24);
    assert_eq!(data.lines(), &[0, 1, 2, 3]);
    assert_eq!(data.lines().len() / 2, 2);
    assert!(data.triangles().is_empty());
    assert_eq!(data.points(), &[p(24, 110), p(24, 90), p(20, 100), p(28, 100)]);
    assert!(data.colors().iter().all(|c| *c == GREEN));
}

#[test]
fn bullish_candle() {
    let data = draw_one(&item(125, 95, 100, 120), 12);
    assert_eq!(data.lines(), &[0, 1]);
    assert_eq!(data.triangles(), &[2, 3, 4, 2, 4, 5]);
    assert_eq!(
        data.points(),
        &[p(12, 125), p(12, 95), p(8, 100), p(16, 100), p(16, 120), p(8, 120)]
    );
    assert!(data.colors().iter().all(|c| *c == GREEN));
}

#[test]
fn bearish_candle_without_wick() {
    let data = draw_one(&item(120, 100, 120, 100), 0);
    assert!(data.lines().is_empty());
    assert_eq!(data.triangles(), &[0, 1, 2, 0, 2, 3]);
    assert_eq!(data.points(), &[p(-4, 120), p(4, 120), p(4, 100), p(-4, 100)]);
    assert!(data.colors().iter().all(|c| *c == RED));
}

#[test]
fn bearish_candle_with_upper_wick() {
    let data = draw_one(&item(130, 100, 120, 100), 0);
    // the wick covers only the part above the body
    assert_eq!(data.lines(), &[0, 1]);
    assert_eq!(&data.points()[..2], &[p(0, 130), p(0, 120)]);
    assert_eq!(data.triangles(), &[2, 3, 4, 2, 4, 5]);
}

#[test]
fn capacity_exceeded() {
    let doji = item(110, 90, 100, 100);
    let mut data = ChartGlData::new();
    for i in 0..(MAX_VERTICES / 4) {
        TradeItemPositioned::new(&doji, i as u64).visualize(&mut data).unwrap();
    }
    assert_eq!(data.points().len(), MAX_VERTICES);
    assert_eq!(*data.lines().last().unwrap(), 65535);
    let r = TradeItemPositioned::new(&doji, 0).visualize(&mut data);
    assert_eq!(r, Err(ChartError::CapacityExceeded));
    assert_eq!(data.points().len(), MAX_VERTICES);
    assert_eq!(data.colors().len(), MAX_VERTICES);
}

fn series() -> TradeData {
    let mut td = TradeData::new(TradeInterval::Day);
    td.add_item(TradeItem::new(86400, 110 * T, 90 * T, 100 * T, 100 * T, 5));
    td.add_item(TradeItem::new(2 * 86400, 125 * T, 95 * T, 100 * T, 120 * T, 6));
    td.add_item(TradeItem::new(3 * 86400, 120 * T, 100 * T, 120 * T, 100 * T, 7));
    td
}

#[test]
fn trade_data_bounds() {
    let td = series();
    assert_eq!(td.len(), 3);
    assert_eq!(*td.range(), RangeF32::new(90 * T, 125 * T));
    assert_eq!((td.period().start, td.period().end), (86400, 3 * 86400));
    assert_eq!(td.iter_data()[1].hlocv(), &Hlocv::new(125 * T, 95 * T, 100 * T, 120 * T, 6));
    let empty = TradeData::new(TradeInterval::Day);
    assert!(empty.range().is_empty());
}

#[test]
fn series_geometry() {
    let data = ChartGlData::from_trade_data(series(), CandleOptions::default()).unwrap();
    assert_eq!(data.points().len(), 4 + 6 + 4);
    assert_eq!(data.lines(), &[0, 1, 2, 3, 4, 5]);
    assert_eq!(data.triangles(), &[6, 7, 8, 6, 8, 9, 10, 11, 12, 10, 12, 13]);
    assert_eq!(data.points()[4], p(12, 125));
    assert_eq!(data.points()[10], p(20, 120));
    assert_eq!(*data.frame(), Frame::new(RangeF32::new(0, 36), RangeF32::new(90 * T, 125 * T)));
}

#[test]
fn grid_lines_span_data_frame() {
    let mut data = ChartGlData::from_trade_data(series(), CandleOptions::default()).unwrap();
    let before = data.points().len();
    let f = Frame::new(RangeF32::new(0, 1), RangeF32::new(100 * T, 200 * T));
    f.visualize(&mut data).unwrap();
    // ten lines at 100, 110, ..., 190
    assert_eq!(data.points().len(), before + 20);
    assert_eq!(data.points()[before], Point { x: 0, y: 100 * T, z: -1 });
    assert_eq!(data.points()[before + 1], Point { x: 36, y: 100 * T, z: -1 });
    assert_eq!(data.points()[before + 19], Point { x: 36, y: 190 * T, z: -1 });
    assert_eq!(data.lines().len(), 6 + 20);
    let flat = Frame::new(RangeF32::new(0, 1), RangeF32::new(3, 3));
    assert_eq!(flat.visualize(&mut data), Err(ChartError::DegenerateRange));
}

#[test]
fn viewport_load() {
    let mut v = Viewport::new(480, 300);
    let data = v.load(series(), CandleOptions::default()).unwrap();
    // visible: the last 480 slot units; prices widened by half the height each side
    let extra = 35 * T / 2;
    assert_eq!(
        v.frame,
        Frame::new(RangeF32::new(36 - 480, 36), RangeF32::new(90 * T - extra, 125 * T + extra))
    );
    let grid_points = data.points().len() - 14;
    assert!(grid_points > 0 && grid_points % 2 == 0);
    assert_eq!(data.points()[14].x, 0);
    assert_eq!(data.points()[15].x, 36);
    assert_eq!(v.translation(), (36 - 480, 90 * T - extra));
    assert_eq!(v.scale_extent(), Ok((480, (35 * T + 2 * extra) as u64)));
}

#[test]
fn viewport_load_errors() {
    let mut v = Viewport::new(480, 300);
    let before = v.frame;
    let empty = TradeData::new(TradeInterval::Day);
    assert_eq!(v.load(empty, CandleOptions::default()).err(), Some(ChartError::DegenerateRange));
    let mut flat = TradeData::new(TradeInterval::Day);
    flat.add_item(TradeItem::new(0, 5, 5, 5, 5, 1));
    assert_eq!(v.load(flat, CandleOptions::default()).err(), Some(ChartError::DegenerateRange));
    let mut huge = TradeData::new(TradeInterval::Day);
    huge.add_item(TradeItem::new(0, i64::MAX, 0, 1, 2, 1));
    assert_eq!(v.load(huge, CandleOptions::default()).err(), Some(ChartError::OutOfRange));
    assert_eq!(v.frame, before);
}

#[test]
fn pan_round_trip() {
    let mut v = Viewport::new(480, 300);
    v.load(series(), CandleOptions::default()).unwrap();
    let start_frame = v.frame;
    v.shift(7);
    assert_eq!(v.frame.range_x().start(), start_frame.range_x().start() + 7 * 12);
    assert_eq!(*v.frame.range_y(), *start_frame.range_y());
    v.shift(-7);
    assert_eq!(v.frame, start_frame);
}

#[test]
fn resize_keeps_right_edge() {
    let mut v = Viewport::new(480, 300);
    v.load(series(), CandleOptions::default()).unwrap();
    let y = *v.frame.range_y();
    assert!(v.adjust_viewport(600, 300));
    assert_eq!((v.frame.range_x().start(), v.frame.range_x().end()), (36 - 600, 36));
    assert_eq!(v.canvas_size, (600, 300));
    assert!(v.adjust_viewport(600, 200));
    assert_eq!((v.frame.range_x().start(), v.frame.range_x().end()), (36 - 600, 36));
    assert_eq!(*v.frame.range_y(), y);
    assert!(!v.adjust_viewport(600, 200));
}

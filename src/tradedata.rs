use vstd::prelude::*;
use crate::interval::{RangeF32, considered_all};

verus! {

/// The length of one trade bucket.
pub enum TradeInterval {
    Day,
}

impl TradeInterval {
    /// The bucket's length in seconds.
    pub fn seconds(&self) -> (r: u32)
        ensures
            r == 86400,
    {
        match self {
            TradeInterval::Day => 86400,
        }
    }
}

/// One observation: high, low, open and close prices in ticks, and the volume.
#[derive(Clone, Copy, Debug, PartialEq, Eq, Structural)]
pub struct Hlocv {
    pub h: i64,
    pub l: i64,
    pub o: i64,
    pub c: i64,
    pub v: i64,
}

impl Hlocv {
    pub fn new(h: i64, l: i64, o: i64, c: i64, v: i64) -> (r: Hlocv)
        ensures
            r == (Hlocv { h, l, o, c, v }),
    {
        Hlocv { h, l, o, c, v }
    }
}

/// An observation with its date, in seconds since the Unix epoch.
#[derive(Clone, Copy, Debug, PartialEq, Eq, Structural)]
pub struct TradeItem {
    pub date: i64,
    pub hlocv: Hlocv,
}

impl TradeItem {
    pub fn new(d: i64, h: i64, l: i64, o: i64, c: i64, v: i64) -> (r: TradeItem)
        ensures
            r == (TradeItem { date: d, hlocv: Hlocv { h, l, o, c, v } }),
    {
        TradeItem { date: d, hlocv: Hlocv::new(h, l, o, c, v) }
    }

    pub fn timestamp(&self) -> (r: i64)
        ensures
            r == self.date,
    {
        self.date
    }

    pub fn hlocv(&self) -> (r: &Hlocv)
        ensures
            *r == self.hlocv,
    {
        &self.hlocv
    }
}

/// An observation placed at a horizontal position, in slot-spacing units.
pub struct TradeItemPositioned<'a> {
    pub item: &'a TradeItem,
    pub position: u64,
}

impl<'a> TradeItemPositioned<'a> {
    pub fn new(item: &'a TradeItem, position: u64) -> (r: TradeItemPositioned<'a>)
        ensures
            *r.item == *item,
            r.position == position,
    {
        TradeItemPositioned { item, position }
    }
}

/// The first and last date seen; `start == i64::MIN` until the first date.
#[derive(Clone, Copy, Debug, PartialEq, Eq, Structural)]
pub struct Period {
    pub start: i64,
    pub end: i64,
}

/// `Period::consider` as a function of values.
pub open spec fn period_considered(p: Period, d: i64) -> Period {
    Period {
        start: if p.start > d || p.start == i64::MIN { d } else { p.start },
        end: if p.end < d { d } else { p.end },
    }
}

/// The period after considering the dates of `s`, first to last.
pub open spec fn period_of(s: Seq<TradeItem>) -> Period
    decreases s.len(),
{
    if s.len() == 0 {
        Period { start: i64::MIN, end: i64::MIN }
    } else {
        period_considered(period_of(s.drop_last()), s.last().date)
    }
}

/// The `(low, high)` pair of each observation.
pub open spec fn extremes(s: Seq<TradeItem>) -> Seq<(i64, i64)> {
    s.map_values(|t: TradeItem| (t.hlocv.l, t.hlocv.h))
}

/// The lowest low and highest high of `s`; `[i64::MAX, i64::MIN)` when `s` is empty.
pub open spec fn value_range(s: Seq<TradeItem>) -> RangeF32 {
    considered_all(RangeF32 { start: i64::MAX, end: i64::MIN }, extremes(s))
}

impl Period {
    pub fn consider(&mut self, d: i64)
        ensures
            *final(self) == period_considered(*old(self), d),
    {
        if self.start > d || self.start == i64::MIN {
            self.start = d;
        }
        if self.end < d {
            self.end = d;
        }
    }
}

/// A chronological series of observations with the running bounds of its
/// prices and dates.
pub struct TradeData {
    interval: TradeInterval,
    items: Vec<TradeItem>,
    period: Period,
    range: RangeF32,
}

impl View for TradeData {
    type V = Seq<TradeItem>;

    closed spec fn view(&self) -> Seq<TradeItem> {
        self.items@
    }
}

impl TradeData {
    /// The running bounds agree with the items.
    pub closed spec fn wf(&self) -> bool {
        &&& self.range == value_range(self.items@)
        &&& self.period == period_of(self.items@)
    }

    pub fn new(i: TradeInterval) -> (r: TradeData)
        ensures
            r.wf(),
            r@ == Seq::<TradeItem>::empty(),
    {
        TradeData {
            interval: i,
            items: Vec::new(),
            period: Period { start: i64::MIN, end: i64::MIN },
            range: RangeF32::new_with_max_rev(),
        }
    }

    /// Appends `item` and folds its date and prices into the running bounds.
    pub fn add_item(&mut self, item: TradeItem)
        requires
            old(self).wf(),
        ensures
            final(self).wf(),
            final(self)@ == old(self)@.push(item),
    {
        self.period.consider(item.date);
        self.range.consider(item.hlocv.l, item.hlocv.h);
        self.items.push(item);
        proof {
            let s = self.items@;
            assert(s.drop_last() =~= old(self).items@);
            assert(extremes(s).drop_last() =~= extremes(old(self).items@));
        }
    }

    pub fn len(&self) -> (r: usize)
        ensures
            r == self@.len(),
    {
        self.items.len()
    }

    pub fn iter_data(&self) -> (r: &[TradeItem])
        ensures
            r@ == self@,
    {
        self.items.as_slice()
    }

    pub fn interval(&self) -> (r: &TradeInterval) {
        &self.interval
    }

    pub fn period(&self) -> (r: &Period)
        requires
            self.wf(),
        ensures
            *r == period_of(self@),
    {
        &self.period
    }

    /// The lowest low and the highest high of the items.
    pub fn range(&self) -> (r: &RangeF32)
        requires
            self.wf(),
        ensures
            *r == value_range(self@),
    {
        &self.range
    }
}

} // verus!

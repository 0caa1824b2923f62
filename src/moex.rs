use vstd::prelude::*;
use crate::geometry::ChartError;
use crate::interval::TICKS_PER_UNIT;
use crate::tradedata::{TradeData, TradeInterval, TradeItem};

verus! {

/// A cell of a history table.
#[derive(Debug)]
pub enum MoexValue {
    String(String),
    Int(i32),
    /// A fractional number, already in ticks.
    Float(i64),
    Null,
}

/// A history table: column names and rows of cells.
pub struct MoexHistory {
    pub columns: Vec<String>,
    pub data: Vec<Vec<MoexValue>>,
}

pub struct MoexResponse {
    pub history: MoexHistory,
}

/// Where each needed column stands in a row.
#[derive(Clone, Copy, Debug, PartialEq, Eq, Structural)]
pub struct ColumnPositions {
    pub date: usize,
    pub high: usize,
    pub low: usize,
    pub open: usize,
    pub close: usize,
    pub volume: usize,
}

/// The midnight UTC of the `YYYY-MM-DD` date that chrono reads from `s`, in
/// seconds since the epoch, or `None` when chrono reads no date.
pub uninterp spec fn trade_date_seconds(s: Seq<char>) -> Option<i64>;

/// Relies on chrono's `NaiveDate::parse_from_str` with the format `%Y-%m-%d`,
/// and on `timestamp` of that date at midnight UTC.
#[verifier::external_body]
fn parse_trade_date(s: &str) -> (r: Option<i64>)
    ensures
        r == trade_date_seconds(s@),
{
    match chrono::NaiveDate::parse_from_str(s, "%Y-%m-%d") {
        Ok(d) => Some(d.and_time(chrono::NaiveTime::MIN).and_utc().timestamp()),
        Err(_) => None,
    }
}

/// The date of a cell: only a text cell holds one.
pub open spec fn date_of(v: MoexValue) -> Option<i64> {
    match v {
        MoexValue::String(s) => trade_date_seconds(s@),
        _ => None,
    }
}

/// The number of a cell in ticks: only numeric cells hold one.
pub open spec fn value_of(v: MoexValue) -> Option<i64> {
    match v {
        MoexValue::Int(i) => Some((i * TICKS_PER_UNIT) as i64),
        MoexValue::Float(t) => Some(t),
        _ => None,
    }
}

/// The date of a cell, in seconds since the epoch.
pub fn get_datetime(value: &MoexValue) -> (r: Option<i64>)
    ensures
        r == date_of(*value),
{
    match value {
        MoexValue::String(datestring) => parse_trade_date(datestring.as_str()),
        _ => None,
    }
}

/// The number of a cell, in ticks.
pub fn get_value(value: &MoexValue) -> (r: Option<i64>)
    ensures
        r == value_of(*value),
{
    match value {
        MoexValue::String(_) | MoexValue::Null => None,
        MoexValue::Int(v) => Some(*v as i64 * TICKS_PER_UNIT),
        MoexValue::Float(v) => Some(*v),
    }
}

/// The position of the last column named `name`.
pub open spec fn last_position(columns: Seq<String>, name: Seq<char>) -> Option<usize>
    decreases columns.len(),
{
    if columns.len() == 0 {
        None
    } else if columns.last()@ == name {
        Some((columns.len() - 1) as usize)
    } else {
        last_position(columns.drop_last(), name)
    }
}

/// The positions of the needed columns, if all are present.
pub open spec fn column_positions(columns: Seq<String>) -> Option<ColumnPositions> {
    match (
        last_position(columns, "TRADEDATE"@),
        last_position(columns, "HIGH"@),
        last_position(columns, "LOW"@),
        last_position(columns, "OPEN"@),
        last_position(columns, "CLOSE"@),
        last_position(columns, "VOLUME"@),
    ) {
        (Some(date), Some(high), Some(low), Some(open), Some(close), Some(volume)) => Some(
            ColumnPositions { date, high, low, open, close, volume },
        ),
        _ => None,
    }
}

/// The observation that a row holds, if every needed cell is there and of its kind.
pub open spec fn decode_row(row: Seq<MoexValue>, p: ColumnPositions) -> Option<TradeItem> {
    if p.date < row.len() && p.high < row.len() && p.low < row.len() && p.open < row.len()
        && p.close < row.len() && p.volume < row.len() {
        match (
            date_of(row[p.date as int]),
            value_of(row[p.high as int]),
            value_of(row[p.low as int]),
            value_of(row[p.open as int]),
            value_of(row[p.close as int]),
            value_of(row[p.volume as int]),
        ) {
            (Some(d), Some(h), Some(l), Some(o), Some(c), Some(v)) => Some(
                TradeItem { date: d, hlocv: crate::tradedata::Hlocv { h, l, o, c, v } },
            ),
            _ => None,
        }
    } else {
        None
    }
}

/// The rows of a table as sequences of cells.
pub open spec fn rows_of(h: &MoexHistory) -> Seq<Seq<MoexValue>> {
    h.data@.map_values(|r: Vec<MoexValue>| r@)
}

/// The position of the last column named `name`.
fn column_position(columns: &Vec<String>, name: &str) -> (r: Option<usize>)
    ensures
        r == last_position(columns@, name@),
{
    let target: String = name.to_owned();
    let mut pos: Option<usize> = None;
    let mut i: usize = 0;
    while i < columns.len()
        invariant
            0 <= i <= columns@.len(),
            target@ == name@,
            pos == last_position(columns@.take(i as int), name@),
        decreases columns@.len() - i,
    {
        proof {
            assert(columns@.take(i + 1).drop_last() =~= columns@.take(i as int));
        }
        if columns[i].eq(&target) {
            pos = Some(i);
        }
        i = i + 1;
    }
    proof {
        assert(columns@.take(i as int) =~= columns@);
    }
    pos
}

/// The observation of one row.
fn decode(row: &Vec<MoexValue>, p: ColumnPositions) -> (r: Option<TradeItem>)
    ensures
        r == decode_row(row@, p),
{
    if p.date >= row.len() || p.high >= row.len() || p.low >= row.len() || p.open >= row.len()
        || p.close >= row.len() || p.volume >= row.len() {
        return None;
    }
    match (
        get_datetime(&row[p.date]),
        get_value(&row[p.high]),
        get_value(&row[p.low]),
        get_value(&row[p.open]),
        get_value(&row[p.close]),
        get_value(&row[p.volume]),
    ) {
        (Some(d), Some(h), Some(l), Some(o), Some(c), Some(v)) => Some(TradeItem::new(d, h, l, o, c, v)),
        _ => None,
    }
}

/// The history service of the Moscow Exchange.
pub struct Moex {}

impl Moex {
    /// Turns a history table into a daily trade series, one observation per
    /// row in order. Fails with `MissingColumn` when a needed column is absent,
    /// and otherwise with `MalformedRow` at the first row that lacks a needed
    /// cell or holds one of the wrong kind.
    pub fn trade_data(history: &MoexHistory) -> (r: Result<TradeData, ChartError>)
        ensures
            column_positions(history.columns@) is None ==> r == Err::<TradeData, ChartError>(
                ChartError::MissingColumn,
            ),
            column_positions(history.columns@) matches Some(p) ==> {
                let rows = rows_of(history);
                &&& r is Ok <==> forall|i: int| 0 <= i < rows.len() ==> #[trigger] decode_row(rows[i], p) is Some
                &&& r matches Ok(td) ==> td.wf() && td@.len() == rows.len() && forall|i: int|
                    0 <= i < rows.len() ==> decode_row(rows[i], p) == Some(#[trigger] td@[i])
                &&& r matches Err(e) ==> exists|i: int|
                    0 <= i < rows.len() && e == ChartError::MalformedRow(i as usize)
                        && #[trigger] decode_row(rows[i], p) is None && forall|j: int|
                        0 <= j < i ==> #[trigger] decode_row(rows[j], p) is Some
            },
    {
        let positions = match (
            column_position(&history.columns, "TRADEDATE"),
            column_position(&history.columns, "HIGH"),
            column_position(&history.columns, "LOW"),
            column_position(&history.columns, "OPEN"),
            column_position(&history.columns, "CLOSE"),
            column_position(&history.columns, "VOLUME"),
        ) {
            (Some(date), Some(high), Some(low), Some(open), Some(close), Some(volume)) => ColumnPositions {
                date,
                high,
                low,
                open,
                close,
                volume,
            },
            _ => {
                return Err(ChartError::MissingColumn);
            },
        };
        let ghost rows = rows_of(history);
        let mut trade_data: TradeData = TradeData::new(TradeInterval::Day);
        let mut i: usize = 0;
        while i < history.data.len()
            invariant
                rows == rows_of(history),
                column_positions(history.columns@) == Some(positions),
                0 <= i <= rows.len(),
                trade_data.wf(),
                trade_data@.len() == i,
                forall|j: int| 0 <= j < i ==> decode_row(rows[j], positions) == Some(#[trigger] trade_data@[j]),
            decreases rows.len() - i,
        {
            let decoded = decode(&history.data[i], positions);
            assert(rows[i as int] == history.data@[i as int]@);
            match decoded {
                Some(item) => {
                    trade_data.add_item(item);
                },
                None => {
                    assert(decode_row(rows[i as int], positions) is None);
                    assert forall|j: int| 0 <= j < i implies #[trigger] decode_row(rows[j], positions) is Some by {
                        assert(decode_row(rows[j], positions) == Some(trade_data@[j]));
                    }
                    return Err(ChartError::MalformedRow(i));
                },
            }
            i = i + 1;
        }
        assert forall|j: int| 0 <= j < rows.len() implies #[trigger] decode_row(rows[j], positions) is Some by {
            assert(decode_row(rows[j], positions) == Some(trade_data@[j]));
        }
        Ok(trade_data)
    }
}

} // verus!

use candle_chart::{get_datetime, get_value, ChartError, Moex, MoexHistory, MoexValue, TICKS_PER_UNIT};
use chrono::{DateTime, NaiveDate, NaiveDateTime, NaiveTime, Utc};

#[test]
fn moex_check() {
    assert_eq!(
        NaiveDate::parse_from_str("2022-11-01", "%Y-%m-%d"),
        Ok(NaiveDate::from_ymd_opt(2022, 11, 1).unwrap())
    );
    assert_eq!(
        NaiveDateTime::parse_from_str("2022-11-01 00:00:00", "%Y-%m-%d %H:%M:%S"),
        Ok(NaiveDateTime::new(NaiveDate::from_ymd_opt(2022, 11, 1).unwrap(), NaiveTime::default()))
    );
    let v: DateTime<Utc> = NaiveDate::parse_from_str("2022-11-01", "%Y-%m-%d")
        .map(|d| NaiveDateTime::new(d, NaiveTime::default()))
        .map(|d| d.and_utc())
        .unwrap();
    assert_eq!(v, DateTime::parse_from_rfc2822("Tue, 01 Nov 2022 00:00:00 GMT").unwrap());
    assert_eq!(get_datetime(&MoexValue::String("2022-11-01".to_string())), Some(v.timestamp()));
}

#[test]
fn cell_values() {
    assert_eq!(get_datetime(&MoexValue::String("2022-11-01".to_string())), Some(1_667_260_800));
    assert_eq!(get_datetime(&MoexValue::String("01.11.2022".to_string())), None);
    assert_eq!(get_datetime(&MoexValue::Int(20221101)), None);
    assert_eq!(get_value(&MoexValue::Int(3)), Some(3 * TICKS_PER_UNIT));
    assert_eq!(get_value(&MoexValue::Float(2_500_000)), Some(2_500_000));
    assert_eq!(get_value(&MoexValue::Null), None);
    assert_eq!(get_value(&MoexValue::String("1".to_string())), None);
}

fn columns(names: &[&str]) -> Vec<String> {
    names.iter().map(|s| s.to_string()).collect()
}

fn row(date: &str, h: i32, l: i32, o: i32, c: i32, v: i32) -> Vec<MoexValue> {
    vec![
        MoexValue::Int(v),
        MoexValue::String("SBER".to_string()),
        MoexValue::Int(c),
        MoexValue::String(date.to_string()),
        MoexValue::Int(o),
        MoexValue::Int(l),
        MoexValue::Int(h),
    ]
}

fn full_columns() -> Vec<String> {
    columns(&["VOLUME", "SECID", "CLOSE", "TRADEDATE", "OPEN", "LOW", "HIGH"])
}

#[test]
fn history_decodes_in_any_column_order() {
    let h = MoexHistory {
        columns: full_columns(),
        data: vec![row("2022-12-01", 12, 9, 10, 11, 100), row("2022-12-02", 15, 8, 11, 9, 200)],
    };
    let td = Moex::trade_data(&h).unwrap();
    assert_eq!(td.len(), 2);
    let first = td.iter_data()[0];
    assert_eq!(first.timestamp(), 1_669_852_800);
    assert_eq!(first.hlocv().h, 12 * TICKS_PER_UNIT);
    assert_eq!(first.hlocv().l, 9 * TICKS_PER_UNIT);
    assert_eq!(first.hlocv().o, 10 * TICKS_PER_UNIT);
    assert_eq!(first.hlocv().c, 11 * TICKS_PER_UNIT);
    assert_eq!(first.hlocv().v, 100 * TICKS_PER_UNIT);
    assert_eq!(td.range().start(), 8 * TICKS_PER_UNIT);
    assert_eq!(td.range().end(), 15 * TICKS_PER_UNIT);
}

#[test]
fn history_missing_column() {
    let h = MoexHistory {
        columns: columns(&["VOLUME", "SECID", "CLOSE", "TRADEDATE", "OPEN", "LOW"]),
        data: vec![],
    };
    assert_eq!(Moex::trade_data(&h).err(), Some(ChartError::MissingColumn));
}

#[test]
fn history_malformed_rows() {
    let mut bad = row("2022-12-02", 15, 8, 11, 9, 200);
    bad[5] = MoexValue::Null;
    let h = MoexHistory {
        columns: full_columns(),
        data: vec![row("2022-12-01", 12, 9, 10, 11, 100), bad, vec![MoexValue::Null]],
    };
    assert_eq!(Moex::trade_data(&h).err(), Some(ChartError::MalformedRow(1)));
    let short = MoexHistory { columns: full_columns(), data: vec![vec![MoexValue::Int(1)]] };
    assert_eq!(Moex::trade_data(&short).err(), Some(ChartError::MalformedRow(0)));
    let bad_date = MoexHistory { columns: full_columns(), data: vec![row("yesterday", 1, 1, 1, 1, 1)] };
    assert_eq!(Moex::trade_data(&bad_date).err(), Some(ChartError::MalformedRow(0)));
}

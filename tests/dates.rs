use ledger_store::date::{date_from_parts, Date};

#[test]
fn from_ymd_opt_checks_the_calendar() {
    assert_eq!(Date::from_ymd_opt(2024, 2, 29), Some(Date { year: 2024, month: 2, day: 29 }));
    assert_eq!(Date::from_ymd_opt(2023, 2, 29), None);
    assert_eq!(Date::from_ymd_opt(1900, 2, 29), None);
    assert_eq!(Date::from_ymd_opt(2000, 2, 29), Some(Date { year: 2000, month: 2, day: 29 }));
    assert_eq!(Date::from_ymd_opt(2024, 4, 31), None);
    assert_eq!(Date::from_ymd_opt(2024, 13, 1), None);
    assert_eq!(Date::from_ymd_opt(2024, 1, 0), None);
    assert_eq!(Date::from_ymd_opt(10000, 1, 1), None);
    assert_eq!(Date::from_ymd_opt(-1, 1, 1), None);
}

#[test]
fn to_iso_pads_every_field() {
    assert_eq!(Date::from_ymd_opt(2024, 1, 5).unwrap().to_iso(), "2024-01-05");
    assert_eq!(Date::from_ymd_opt(33, 12, 31).unwrap().to_iso(), "0033-12-31");
    assert_eq!(Date::from_ymd_opt(0, 1, 1).unwrap().to_iso(), "0000-01-01");
    assert_eq!(Date::from_ymd_opt(9999, 12, 31).unwrap().to_iso(), "9999-12-31");
}

#[test]
fn parse_iso_reads_stored_dates() {
    assert_eq!(Date::parse_iso("2024-01-20"), Some(Date { year: 2024, month: 1, day: 20 }));
    assert_eq!(Date::parse_iso("2024-02-30"), None);
    assert_eq!(Date::parse_iso("yesterday"), None);
    assert_eq!(Date::parse_iso(""), None);
}

#[test]
fn parse_iso_round_trips_to_iso() {
    let d = Date::from_ymd_opt(1999, 7, 4).unwrap();
    assert_eq!(Date::parse_iso(&d.to_iso()), Some(d));
}

#[test]
fn date_from_parts_keeps_four_digit_years() {
    assert_eq!(date_from_parts(Some((2024, 3, 1))), Some(Date { year: 2024, month: 3, day: 1 }));
    assert_eq!(date_from_parts(Some((12024, 3, 1))), None);
    assert_eq!(date_from_parts(None), None);
}

#[test]
fn le_orders_dates() {
    let a = Date::from_ymd_opt(2024, 1, 31).unwrap();
    let b = Date::from_ymd_opt(2024, 2, 1).unwrap();
    assert!(a.le(&b));
    assert!(!b.le(&a));
    assert!(a.le(&a));
}

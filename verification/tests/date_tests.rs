use commit_check::date::{check_calendar_key, formatted_date_from_rfc3339_timestamp};

#[test]
fn formats_date_correctly_when_less_than_ten() {
    let date = "2022-01-02T18:44:49Z";
    let formatted_date = formatted_date_from_rfc3339_timestamp(date).unwrap();
    assert_eq!(formatted_date, "2022-01-02")
}

#[test]
fn formats_date_correctly_when_is_ten() {
    let date = "2022-10-10T18:44:49Z";
    let formatted_date = formatted_date_from_rfc3339_timestamp(date).unwrap();
    assert_eq!(formatted_date, "2022-10-10")
}

#[test]
fn formats_date_correctly_when_greater_than_ten() {
    let date = "2022-11-11T18:44:49Z";
    let formatted_date = formatted_date_from_rfc3339_timestamp(date).unwrap();
    assert_eq!(formatted_date, "2022-11-11")
}

#[test]
fn pads_every_single_digit_month_and_day() {
    for month in 1..=9u32 {
        let ts = format!("2022-{:02}-05T00:00:00Z", month);
        let key = formatted_date_from_rfc3339_timestamp(&ts).unwrap();
        assert_eq!(key, format!("2022-0{}-05", month));
    }
    for day in 1..=9u32 {
        let ts = format!("2022-12-{:02}T00:00:00Z", day);
        let key = formatted_date_from_rfc3339_timestamp(&ts).unwrap();
        assert_eq!(key, format!("2022-12-0{}", day));
    }
}

#[test]
fn leaves_two_digit_months_and_days_unpadded() {
    for month in 10..=12u32 {
        let ts = format!("2022-{}-15T00:00:00Z", month);
        let key = formatted_date_from_rfc3339_timestamp(&ts).unwrap();
        assert_eq!(key, format!("2022-{}-15", month));
    }
    for day in [10u32, 21, 31] {
        let ts = format!("2022-12-{}T00:00:00Z", day);
        let key = formatted_date_from_rfc3339_timestamp(&ts).unwrap();
        assert_eq!(key, format!("2022-12-{}", day));
    }
}

#[test]
fn unparseable_timestamp_is_rejected() {
    assert!(formatted_date_from_rfc3339_timestamp("not a date").is_none());
    assert!(formatted_date_from_rfc3339_timestamp("").is_none());
    assert!(formatted_date_from_rfc3339_timestamp("2022-01-02").is_none());
}

#[test]
fn timestamp_keeps_local_date_of_offset() {
    // The offset is preserved, not shifted to UTC: the local date stands.
    let key = formatted_date_from_rfc3339_timestamp("2022-03-01T01:30:00+11:00").unwrap();
    assert_eq!(key, "2022-03-01");
}

#[test]
fn calendar_key_format_is_checked() {
    assert!(check_calendar_key("2022-01-02"));
    assert!(check_calendar_key("0001-12-31"));
    assert!(!check_calendar_key("2022-1-02"));
    assert!(!check_calendar_key("2022/01/02"));
    assert!(!check_calendar_key("2022-01-02T"));
    assert!(!check_calendar_key(""));
    assert!(!check_calendar_key("\"] , tool-tip"));
}

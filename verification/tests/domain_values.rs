use vehicle_store::dao::rows::CqlValue;
use vehicle_store::domain::date::{push_timestamp, timestamp_in_range_check, Date};
use vehicle_store::domain::uid::Uuid;
use vehicle_store::domain::vehicle_type::VehicleType;
use vehicle_store::repository::row_decoder::{decode_vehicle, DecodeError};

#[test]
fn when_parsing_and_rendering_uuid_then_text_round_trips() {
    let text = "a906615e-2e6a-4edb-9377-5a6b8544791b";

    let id = Uuid::parse_str(text).unwrap();

    assert_eq!(text.to_string(), id.hyphenated());
}

#[test]
fn given_upper_case_digits_when_parsing_uuid_then_rendering_is_lower_case() {
    let id = Uuid::parse_str("A906615E-2E6A-4EDB-9377-5A6B8544791B").unwrap();

    assert_eq!("a906615e-2e6a-4edb-9377-5a6b8544791b".to_string(), id.hyphenated());
}

#[test]
fn given_malformed_text_when_parsing_uuid_then_parsing_fails() {
    assert!(Uuid::parse_str("").is_none());
    assert!(Uuid::parse_str("a906615e-2e6a-4edb-9377-5a6b8544791").is_none());
    assert!(Uuid::parse_str("a906615e 2e6a-4edb-9377-5a6b8544791b").is_none());
    assert!(Uuid::parse_str("g906615e-2e6a-4edb-9377-5a6b8544791b").is_none());
}

#[test]
fn when_date_from_day_number_then_calendar_fields_match() {
    assert_eq!(Date::from_ymd(1, 1, 15).unwrap(), Date::from_num_days_from_ce(15).unwrap());
    assert_eq!(Date::from_ymd(1, 2, 4).unwrap(), Date::from_num_days_from_ce(35).unwrap());
    assert_eq!(Date::from_ymd(2, 5, 15).unwrap(), Date::from_num_days_from_ce(500).unwrap());
    assert_eq!(Date::from_ymd(1970, 1, 1).unwrap(), Date::from_num_days_from_ce(719163).unwrap());
}

#[test]
fn given_day_number_out_of_range_then_no_date_comes_back() {
    assert!(Date::from_num_days_from_ce(0).is_none());
    assert!(Date::from_num_days_from_ce(-5).is_none());
    assert!(Date::from_num_days_from_ce(3652060).is_none());
    assert!(Date::from_num_days_from_ce(3652059).is_some());
}

#[test]
fn given_unreal_calendar_fields_then_no_date_comes_back() {
    assert!(Date::from_ymd(2023, 2, 29).is_none());
    assert!(Date::from_ymd(2024, 2, 29).is_some());
    assert!(Date::from_ymd(1900, 2, 29).is_none());
    assert!(Date::from_ymd(2000, 2, 29).is_some());
    assert!(Date::from_ymd(2024, 4, 31).is_none());
    assert!(Date::from_ymd(0, 1, 1).is_none());
    assert!(Date::from_ymd(10000, 1, 1).is_none());
}

#[test]
fn when_rendering_timestamps_then_text_matches_utc_calendar() {
    let mut s = String::new();
    push_timestamp(&mut s, 5);
    assert_eq!("1970-01-01 00:00:05 UTC", s);

    let mut s2 = String::new();
    push_timestamp(&mut s2, 31536000);
    assert_eq!("1971-01-01 00:00:00 UTC", s2);

    let mut s3 = String::new();
    push_timestamp(&mut s3, 68169600);
    assert_eq!("1972-02-29 00:00:00 UTC", s3);

    let mut s4 = String::new();
    push_timestamp(&mut s4, 86399);
    assert_eq!("1970-01-01 23:59:59 UTC", s4);
}

#[test]
fn when_checking_timestamp_range_then_bounds_are_the_supported_calendar() {
    assert!(timestamp_in_range_check(0));
    assert!(timestamp_in_range_check(253402300799));
    assert!(!timestamp_in_range_check(253402300800));
    assert!(!timestamp_in_range_check(-1));
}

#[test]
fn given_wrong_column_count_when_decoding_then_fails_with_column_count() {
    let row = vehicle_store::dao::rows::Row { columns: vec![Some(CqlValue::Int(7))] };

    let decoded = decode_vehicle(&row);

    assert!(matches!(decoded, Err(DecodeError::ColumnCount)));
}

#[test]
fn given_null_in_required_column_when_decoding_then_fails_with_cell_mismatch() {
    let mut columns: Vec<Option<CqlValue>> = Vec::new();
    columns.push(None);
    for _ in 0..11 {
        columns.push(Some(CqlValue::Int(0)));
    }
    let row = vehicle_store::dao::rows::Row { columns };

    let decoded = decode_vehicle(&row);

    assert!(matches!(decoded, Err(DecodeError::CellMismatch)));
}

#[test]
fn when_vehicle_type_then_the_one_known_kind_exists() {
    let kind = VehicleType::bike;

    assert_eq!(VehicleType::bike, kind);
}

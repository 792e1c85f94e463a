use vehicle_store::dao::rows::{CqlValue, QueryError, QueryResult, Row};
use vehicle_store::dao::session_manager::{ScriptedSession, SessionManagerImpl};
use vehicle_store::domain::date::Date;
use vehicle_store::domain::uid::Uuid;
use vehicle_store::domain::vehicle::Vehicle;
use vehicle_store::repository::vehicle_repository::{
    insert_query, select_query, RepositoryError, VehicleRepository, VehicleRepositoryImpl,
};

const USER_ID_STR: &str = "a906615e-2e6a-4edb-9377-5a6b8544791b";
const VEHICLE_ID_STR: &str = "88573010-cf4c-490e-9d29-f8517dc60b90";
const EXPECTED_VEHICLE_NAME: &str = "the vehicle name";
const EXPECTED_CREATED_AT: i64 = 5;
const EXPECTED_VEHICLE_TYPE: &str = "bike";
const EXPECTED_RETIRED_AT: i64 = 10;
const EXPECTED_BRAND: &str = "the brand";
const EXPECTED_MODEL: &str = "the model";
const EXPECTED_DISTANCE: i32 = 500;
const EXPECTED_PICTURE: &str = "the picture";
const EXPECTED_QUERY: &str = "SELECT name, user_id, vehicle_id, created_at, vehicle_type, retired_at, brand, model, distance, owner_since, manufacturing_date, picture FROM vehicles.vehicle WHERE user_id = a906615e-2e6a-4edb-9377-5a6b8544791b and vehicle_id = 88573010-cf4c-490e-9d29-f8517dc60b90";
const EXPECTED_SAVE_QUERY: &str = "INSERT INTO vehicles.vehicle   (user_id,       vehicle_id,    vehicle_type,  name,          created_at,    retired_at,    brand,         model,         distance,      owner_since,   manufacturing_date, picture) VALUES (a906615e-2e6a-4edb-9377-5a6b8544791b, 88573010-cf4c-490e-9d29-f8517dc60b90, 'bike', 'the vehicle name', '1970-01-01 00:00:05 UTC', '1970-01-01 00:00:10 UTC', 'the brand', 'the model', 500, '0001-01-15', '0001-01-15', 'the picture')";

// The stored calendar dates of the fabricated row: 16315 days past
// the Unix epoch.
fn expected_stored_date() -> Date {
    Date::from_ymd(2014, 9, 2).unwrap()
}

fn create_query_result(cql_value: CqlValue) -> Result<QueryResult, QueryError> {
    let cql_values = vec![
        Some(cql_value),
        Some(CqlValue::Uuid(Uuid::parse_str(USER_ID_STR).unwrap())),
        Some(CqlValue::Uuid(Uuid::parse_str(VEHICLE_ID_STR).unwrap())),
        Some(CqlValue::Timestamp(EXPECTED_CREATED_AT)),
        Some(CqlValue::Text(EXPECTED_VEHICLE_TYPE.to_string())),
        Some(CqlValue::Timestamp(EXPECTED_RETIRED_AT)),
        Some(CqlValue::Text(EXPECTED_BRAND.to_string())),
        Some(CqlValue::Text(EXPECTED_MODEL.to_string())),
        Some(CqlValue::Int(EXPECTED_DISTANCE)),
        Some(CqlValue::Date(expected_stored_date())),
        Some(CqlValue::Date(expected_stored_date())),
        Some(CqlValue::Text(EXPECTED_PICTURE.to_string())),
    ];
    let row = Row { columns: cql_values };
    let rows = Some(vec![row]);

    Ok(QueryResult { rows })
}

fn repository_with_script(
    script: Vec<Result<QueryResult, QueryError>>,
) -> VehicleRepositoryImpl<SessionManagerImpl<ScriptedSession>> {
    VehicleRepositoryImpl::new(SessionManagerImpl::new(ScriptedSession::new(script)))
}

fn forge_vehicle() -> Vehicle {
    Vehicle {
        user_id: Uuid::parse_str(USER_ID_STR).unwrap(),
        vehicle_id: Uuid::parse_str(VEHICLE_ID_STR).unwrap(),
        vehicle_type: EXPECTED_VEHICLE_TYPE.to_string(),
        name: EXPECTED_VEHICLE_NAME.to_string(),
        created_at: EXPECTED_CREATED_AT,
        retired_at: Some(EXPECTED_RETIRED_AT),
        brand: EXPECTED_BRAND.to_string(),
        model: EXPECTED_MODEL.to_string(),
        distance: EXPECTED_DISTANCE,
        owner_since: Date::from_num_days_from_ce(15).unwrap(),
        manufacturing_date: Date::from_num_days_from_ce(15).unwrap(),
        picture: Some(EXPECTED_PICTURE.to_string()),
    }
}

#[test]
fn when_get_vehicle_then_returns_vehicle() {
    let user_id = Uuid::parse_str(USER_ID_STR).unwrap();
    let vehicle_id = Uuid::parse_str(VEHICLE_ID_STR).unwrap();
    let mut vehicle_repository = repository_with_script(vec![create_query_result(
        CqlValue::Text(EXPECTED_VEHICLE_NAME.to_string()),
    )]);

    let vehicle = vehicle_repository.get_vehicle(user_id, vehicle_id).unwrap().unwrap();

    assert_eq!(EXPECTED_VEHICLE_NAME, vehicle.name);
    assert_eq!(user_id, vehicle.user_id);
    assert_eq!(vehicle_id, vehicle.vehicle_id);
    assert_eq!(EXPECTED_CREATED_AT, vehicle.created_at);
    assert_eq!(EXPECTED_VEHICLE_TYPE, vehicle.vehicle_type);
    assert_eq!(EXPECTED_RETIRED_AT, vehicle.retired_at.unwrap());
    assert_eq!(EXPECTED_BRAND, vehicle.brand);
    assert_eq!(EXPECTED_MODEL, vehicle.model);
    assert_eq!(EXPECTED_DISTANCE, vehicle.distance);
    assert_eq!(expected_stored_date(), vehicle.owner_since);
    assert_eq!(expected_stored_date(), vehicle.manufacturing_date);
    assert_eq!(EXPECTED_PICTURE, vehicle.picture.unwrap());
}

#[test]
fn given_no_matching_row_when_get_vehicle_then_returns_none() {
    let user_id = Uuid::parse_str(USER_ID_STR).unwrap();
    let vehicle_id = Uuid::parse_str(VEHICLE_ID_STR).unwrap();
    let mut vehicle_repository = repository_with_script(vec![Ok(QueryResult::default())]);

    let vehicle = vehicle_repository.get_vehicle(user_id, vehicle_id);

    assert!(vehicle.unwrap().is_none());
}

#[test]
fn given_error_when_get_vehicle_then_reports_failure() {
    let user_id = Uuid::parse_str(USER_ID_STR).unwrap();
    let vehicle_id = Uuid::parse_str(VEHICLE_ID_STR).unwrap();
    let mut vehicle_repository = repository_with_script(vec![
        Err(QueryError::InvalidMessage("error".to_owned())),
        Err(QueryError::InvalidMessage("error".to_owned())),
        Err(QueryError::InvalidMessage("error".to_owned())),
        Err(QueryError::InvalidMessage("error".to_owned())),
    ]);

    let vehicle = vehicle_repository.get_vehicle(user_id, vehicle_id);

    assert!(matches!(vehicle, Err(RepositoryError::Execution(_))));
}

#[test]
fn given_row_with_unexpected_type_integer_when_get_vehicle_then_reports_failure() {
    let user_id = Uuid::parse_str(USER_ID_STR).unwrap();
    let vehicle_id = Uuid::parse_str(VEHICLE_ID_STR).unwrap();
    let mut vehicle_repository =
        repository_with_script(vec![create_query_result(CqlValue::Int(7))]);

    let vehicle = vehicle_repository.get_vehicle(user_id, vehicle_id);

    assert!(matches!(vehicle, Err(RepositoryError::Decode(_))));
}

#[test]
fn when_save_vehicle_then_returns_vehicle() {
    let mut vehicle_repository = repository_with_script(vec![create_query_result(
        CqlValue::Text(EXPECTED_VEHICLE_NAME.to_string()),
    )]);

    let vehicle = vehicle_repository.save_vehicle(forge_vehicle()).unwrap();

    assert_eq!(EXPECTED_VEHICLE_NAME, vehicle.name);
}

#[test]
fn given_error_when_save_vehicle_then_returns_none() {
    let mut vehicle_repository = repository_with_script(vec![
        Err(QueryError::InvalidMessage("error".to_owned())),
        Err(QueryError::InvalidMessage("error".to_owned())),
        Err(QueryError::InvalidMessage("error".to_owned())),
        Err(QueryError::InvalidMessage("error".to_owned())),
    ]);

    let vehicle = vehicle_repository.save_vehicle(forge_vehicle());

    assert!(vehicle.is_none());
}

#[test]
fn when_select_query_then_text_embeds_the_composite_key() {
    let user_id = Uuid::parse_str(USER_ID_STR).unwrap();
    let vehicle_id = Uuid::parse_str(VEHICLE_ID_STR).unwrap();

    let query = select_query(&user_id, &vehicle_id);

    assert_eq!(EXPECTED_QUERY, query);
}

#[test]
fn when_insert_query_then_text_embeds_every_field_in_order() {
    let query = insert_query(&forge_vehicle());

    assert_eq!(EXPECTED_SAVE_QUERY, query);
}

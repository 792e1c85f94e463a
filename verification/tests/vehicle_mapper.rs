use vehicle_store::domain::date::Date;
use vehicle_store::domain::uid::Uuid;
use vehicle_store::domain::vehicle::Vehicle;
use vehicle_store::dto::vehicle_dto::VehicleDTO;
use vehicle_store::mapper::vehicle_mapper::{get_vehicle, get_vehicle_dto};

const USER_ID_STR: &str = "a906615e-2e6a-4edb-9377-5a6b8544791b";
const VEHICLE_ID_STR: &str = "88573010-cf4c-490e-9d29-f8517dc60b90";
const EXPECTED_VEHICLE_NAME: &str = "the vehicle name";
const EXPECTED_VEHICLE_TYPE: &str = "bike";
const EXPECTED_BRAND: &str = "the brand";
const EXPECTED_MODEL: &str = "the model";
const EXPECTED_DISTANCE: i32 = 15;
const EXPECTED_PICTURE: &str = "the picture path";
const EXPECTED_CREATED_AT: i64 = 5;
const EXPECTED_RETIRED_AT: i64 = 5000;
const EXPECTED_OWNER_SINCE: i32 = 15;
const EXPECTED_MANUFACTURING_DATE: i32 = 15;

#[test]
fn given_vehicle_when_get_vehicle_dto_then_returns_vehicle_dto() {
    let vehicle: Vehicle = Vehicle {
        name: EXPECTED_VEHICLE_NAME.to_string(),
        user_id: Uuid::parse_str(USER_ID_STR).unwrap(),
        vehicle_id: Uuid::parse_str(VEHICLE_ID_STR).unwrap(),
        created_at: EXPECTED_CREATED_AT,
        vehicle_type: EXPECTED_VEHICLE_TYPE.to_string(),
        retired_at: Some(EXPECTED_RETIRED_AT),
        brand: EXPECTED_BRAND.to_string(),
        model: EXPECTED_MODEL.to_string(),
        distance: EXPECTED_DISTANCE,
        owner_since: Date::from_num_days_from_ce(EXPECTED_OWNER_SINCE).unwrap(),
        manufacturing_date: Date::from_num_days_from_ce(EXPECTED_MANUFACTURING_DATE).unwrap(),
        picture: Some(EXPECTED_PICTURE.to_string()),
    };

    let vehicle_dto = get_vehicle_dto(vehicle);

    assert_eq!(vehicle_dto.name, EXPECTED_VEHICLE_NAME.to_string());
    assert_eq!(vehicle_dto.user_id, Uuid::parse_str(USER_ID_STR).unwrap());
    assert_eq!(vehicle_dto.vehicle_id.unwrap(), Uuid::parse_str(VEHICLE_ID_STR).unwrap());
    assert_eq!(vehicle_dto.created_at, EXPECTED_CREATED_AT);
    assert_eq!(vehicle_dto.vehicle_type, EXPECTED_VEHICLE_TYPE.to_string());
    assert_eq!(vehicle_dto.retired_at.unwrap(), EXPECTED_RETIRED_AT);
    assert_eq!(vehicle_dto.brand, EXPECTED_BRAND.to_string());
    assert_eq!(vehicle_dto.model, EXPECTED_MODEL.to_string());
    assert_eq!(vehicle_dto.distance, EXPECTED_DISTANCE);
    assert_eq!(vehicle_dto.owner_since, Date::from_num_days_from_ce(EXPECTED_OWNER_SINCE).unwrap());
    assert_eq!(
        vehicle_dto.manufacturing_date,
        Date::from_num_days_from_ce(EXPECTED_MANUFACTURING_DATE).unwrap()
    );
    assert_eq!(vehicle_dto.picture.unwrap(), EXPECTED_PICTURE.to_string());
}

#[test]
fn given_vehicle_dto_when_get_vehicle_then_returns_vehicle() {
    let vehicle_dto: VehicleDTO = VehicleDTO {
        name: EXPECTED_VEHICLE_NAME.to_string(),
        user_id: Uuid::parse_str(USER_ID_STR).unwrap(),
        vehicle_id: Some(Uuid::parse_str(VEHICLE_ID_STR).unwrap()),
        created_at: EXPECTED_CREATED_AT,
        vehicle_type: EXPECTED_VEHICLE_TYPE.to_string(),
        retired_at: Some(EXPECTED_RETIRED_AT),
        brand: EXPECTED_BRAND.to_string(),
        model: EXPECTED_MODEL.to_string(),
        distance: EXPECTED_DISTANCE,
        owner_since: Date::from_num_days_from_ce(EXPECTED_OWNER_SINCE).unwrap(),
        manufacturing_date: Date::from_num_days_from_ce(EXPECTED_MANUFACTURING_DATE).unwrap(),
        picture: Some(EXPECTED_PICTURE.to_string()),
    };

    let vehicle = get_vehicle(vehicle_dto);

    assert_eq!(vehicle.name, EXPECTED_VEHICLE_NAME.to_string());
    assert_eq!(vehicle.user_id, Uuid::parse_str(USER_ID_STR).unwrap());
    assert_eq!(vehicle.vehicle_id, Uuid::parse_str(VEHICLE_ID_STR).unwrap());
    assert_eq!(vehicle.created_at, EXPECTED_CREATED_AT);
    assert_eq!(vehicle.vehicle_type, EXPECTED_VEHICLE_TYPE.to_string());
    assert_eq!(vehicle.retired_at.unwrap(), EXPECTED_RETIRED_AT);
    assert_eq!(vehicle.brand, EXPECTED_BRAND.to_string());
    assert_eq!(vehicle.model, EXPECTED_MODEL.to_string());
    assert_eq!(vehicle.distance, EXPECTED_DISTANCE);
    assert_eq!(vehicle.owner_since, Date::from_num_days_from_ce(EXPECTED_OWNER_SINCE).unwrap());
    assert_eq!(
        vehicle.manufacturing_date,
        Date::from_num_days_from_ce(EXPECTED_MANUFACTURING_DATE).unwrap()
    );
    assert_eq!(vehicle.picture.unwrap(), EXPECTED_PICTURE.to_string());
}

#[test]
fn given_vehicle_dto_without_identifier_when_get_vehicle_then_a_fresh_one_is_assigned() {
    let vehicle_dto: VehicleDTO = VehicleDTO {
        name: EXPECTED_VEHICLE_NAME.to_string(),
        user_id: Uuid::parse_str(USER_ID_STR).unwrap(),
        vehicle_id: None,
        created_at: EXPECTED_CREATED_AT,
        vehicle_type: EXPECTED_VEHICLE_TYPE.to_string(),
        retired_at: None,
        brand: EXPECTED_BRAND.to_string(),
        model: EXPECTED_MODEL.to_string(),
        distance: EXPECTED_DISTANCE,
        owner_since: Date::from_num_days_from_ce(EXPECTED_OWNER_SINCE).unwrap(),
        manufacturing_date: Date::from_num_days_from_ce(EXPECTED_MANUFACTURING_DATE).unwrap(),
        picture: None,
    };

    let vehicle = get_vehicle(vehicle_dto);

    // A version-4 identifier renders with a '4' leading its third
    // group.
    let rendered = vehicle.vehicle_id.hyphenated();
    assert_eq!(36, rendered.len());
    assert_eq!(Some('4'), rendered.chars().nth(14));
}

#[test]
fn given_mapped_vehicle_when_mapped_back_then_round_trip_is_exact() {
    let vehicle_dto: VehicleDTO = VehicleDTO {
        name: EXPECTED_VEHICLE_NAME.to_string(),
        user_id: Uuid::parse_str(USER_ID_STR).unwrap(),
        vehicle_id: Some(Uuid::parse_str(VEHICLE_ID_STR).unwrap()),
        created_at: EXPECTED_CREATED_AT,
        vehicle_type: EXPECTED_VEHICLE_TYPE.to_string(),
        retired_at: Some(EXPECTED_RETIRED_AT),
        brand: EXPECTED_BRAND.to_string(),
        model: EXPECTED_MODEL.to_string(),
        distance: EXPECTED_DISTANCE,
        owner_since: Date::from_num_days_from_ce(EXPECTED_OWNER_SINCE).unwrap(),
        manufacturing_date: Date::from_num_days_from_ce(EXPECTED_MANUFACTURING_DATE).unwrap(),
        picture: Some(EXPECTED_PICTURE.to_string()),
    };

    let round_tripped = get_vehicle_dto(get_vehicle(vehicle_dto.clone()));

    assert_eq!(round_tripped.name, vehicle_dto.name);
    assert_eq!(round_tripped.user_id, vehicle_dto.user_id);
    assert_eq!(round_tripped.vehicle_id, vehicle_dto.vehicle_id);
    assert_eq!(round_tripped.created_at, vehicle_dto.created_at);
    assert_eq!(round_tripped.vehicle_type, vehicle_dto.vehicle_type);
    assert_eq!(round_tripped.retired_at, vehicle_dto.retired_at);
    assert_eq!(round_tripped.brand, vehicle_dto.brand);
    assert_eq!(round_tripped.model, vehicle_dto.model);
    assert_eq!(round_tripped.distance, vehicle_dto.distance);
    assert_eq!(round_tripped.owner_since, vehicle_dto.owner_since);
    assert_eq!(round_tripped.manufacturing_date, vehicle_dto.manufacturing_date);
    assert_eq!(round_tripped.picture, vehicle_dto.picture);
}

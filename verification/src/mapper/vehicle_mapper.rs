//! Pure, side-effect-free conversion between the domain vehicle and
//! its external representation. Durations since the Unix epoch and
//! absolute UTC timestamps coincide numerically, so every field
//! passes through unchanged; the one exception is the identifier,
//! which is generated fresh when the external record omits it.

use vstd::prelude::*;

use crate::domain::uid::Uuid;
use crate::domain::vehicle::Vehicle;
use crate::dto::vehicle_dto::VehicleDTO;

verus! {

/// The external representation of a vehicle: all fields pass
/// through; the identifier is always present.
pub open spec fn spec_vehicle_dto(v: Vehicle) -> VehicleDTO {
    VehicleDTO {
        name: v.name,
        user_id: v.user_id,
        vehicle_id: Some(v.vehicle_id),
        created_at: v.created_at,
        vehicle_type: v.vehicle_type,
        retired_at: v.retired_at,
        brand: v.brand,
        model: v.model,
        distance: v.distance,
        owner_since: v.owner_since,
        manufacturing_date: v.manufacturing_date,
        picture: v.picture,
    }
}

/// The domain vehicle an external representation describes, the
/// given identifier standing in where the representation omits one.
pub open spec fn spec_vehicle(dto: VehicleDTO, fallback_id: Uuid) -> Vehicle {
    Vehicle {
        name: dto.name,
        user_id: dto.user_id,
        vehicle_id: match dto.vehicle_id {
            Some(id) => id,
            None => fallback_id,
        },
        created_at: dto.created_at,
        vehicle_type: dto.vehicle_type,
        retired_at: dto.retired_at,
        brand: dto.brand,
        model: dto.model,
        distance: dto.distance,
        owner_since: dto.owner_since,
        manufacturing_date: dto.manufacturing_date,
        picture: dto.picture,
    }
}

/// Maps a domain vehicle to its external representation.
pub fn get_vehicle_dto(vehicle: Vehicle) -> (r: VehicleDTO)
    ensures
        r == spec_vehicle_dto(vehicle),
{
    VehicleDTO {
        name: vehicle.name,
        user_id: vehicle.user_id,
        vehicle_id: Some(vehicle.vehicle_id),
        created_at: vehicle.created_at,
        vehicle_type: vehicle.vehicle_type,
        retired_at: vehicle.retired_at,
        brand: vehicle.brand,
        model: vehicle.model,
        distance: vehicle.distance,
        owner_since: vehicle.owner_since,
        manufacturing_date: vehicle.manufacturing_date,
        picture: vehicle.picture,
    }
}

/// Maps an external representation to a domain vehicle, generating a
/// fresh random identifier where the representation omits one: the
/// result is the mapping with the result's own identifier filled in.
pub fn get_vehicle(vehicle_dto: VehicleDTO) -> (r: Vehicle)
    ensures
        r == spec_vehicle(vehicle_dto, r.vehicle_id),
        vehicle_dto.vehicle_id matches Some(id) ==> r.vehicle_id == id,
{
    let id = match &vehicle_dto.vehicle_id {
        Some(id) => *id,
        None => Uuid::new_v4(),
    };
    Vehicle {
        name: vehicle_dto.name,
        user_id: vehicle_dto.user_id,
        vehicle_id: id,
        created_at: vehicle_dto.created_at,
        vehicle_type: vehicle_dto.vehicle_type,
        retired_at: vehicle_dto.retired_at,
        brand: vehicle_dto.brand,
        model: vehicle_dto.model,
        distance: vehicle_dto.distance,
        owner_since: vehicle_dto.owner_since,
        manufacturing_date: vehicle_dto.manufacturing_date,
        picture: vehicle_dto.picture,
    }
}

/// Mapper round trip: for any vehicle, whose identifier is by
/// construction populated, mapping out to the external
/// representation and back reproduces it exactly, whatever
/// identifier would have stood in for a missing one.
pub proof fn lemma_mapper_round_trip(v: Vehicle, fallback_id: Uuid)
    ensures
        spec_vehicle(spec_vehicle_dto(v), fallback_id) == v,
{
    assert(spec_vehicle(spec_vehicle_dto(v), fallback_id) =~= v);
}

/// The external-side round trip: a representation that already names
/// its identifier is reproduced exactly by mapping in and out again.
pub proof fn lemma_dto_round_trip(dto: VehicleDTO, fallback_id: Uuid)
    requires
        dto.vehicle_id is Some,
    ensures
        spec_vehicle_dto(spec_vehicle(dto, fallback_id)) == dto,
{
    assert(spec_vehicle_dto(spec_vehicle(dto, fallback_id)) =~= dto);
}

/// Mapping in preserves renderability: the domain vehicle of a
/// well-formed representation is well-formed.
pub proof fn lemma_mapping_preserves_wf(dto: VehicleDTO, fallback_id: Uuid)
    requires
        dto.wf(),
    ensures
        spec_vehicle(dto, fallback_id).wf(),
{
}

} // verus!

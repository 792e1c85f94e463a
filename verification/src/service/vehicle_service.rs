//! The service over the vehicle repository: flattens "no matching
//! row" into the fixed sentinel name, maps the external
//! representation in and out around a store, and propagates
//! execution failure as a failure rather than folding it into the
//! sentinel.

use vstd::prelude::*;
use vstd::string::StringExecFns;

use crate::domain::uid::Uuid;
use crate::domain::vehicle::Vehicle;
use crate::dto::vehicle_dto::VehicleDTO;
use crate::mapper::vehicle_mapper;
use crate::repository::vehicle_repository::{RepositoryError, VehicleRepository};

verus! {

/// The fetched vehicle's name, or the sentinel `"unknown"` in place
/// of an absent one.
pub fn vehicle_name_or_unknown(vehicle: Option<Vehicle>) -> (r: String)
    ensures
        match vehicle {
            Some(v) => r == v.name,
            None => r@ == "unknown"@,
        },
{
    match vehicle {
        Some(v) => v.name,
        None => String::from_str("unknown"),
    }
}

/// The service over an injected repository.
pub struct VehicleService<R: VehicleRepository> {
    pub vehicle_repository: R,
}

impl<R: VehicleRepository> VehicleService<R> {
    pub fn new(vehicle_repository: R) -> (r: VehicleService<R>)
        ensures
            r.vehicle_repository == vehicle_repository,
    {
        VehicleService { vehicle_repository }
    }

    /// The name stored under (`user_id`, `vehicle_id`): the sentinel
    /// `"unknown"` where no row matches, and the failure itself where
    /// the fetch failed — absence and failure stay distinct.
    pub fn get_vehicle_name(&mut self, user_id: Uuid, vehicle_id: Uuid) -> (r: Result<
        String,
        RepositoryError,
    >)
        ensures
            ({
                let g = old(self).vehicle_repository.get_results();
                &&& g.len() > 0 ==> match g[0] {
                    Ok(Some(v)) => r matches Ok(n) && n == v.name,
                    Ok(None) => r matches Ok(n) && n@ == "unknown"@,
                    Err(e) => r == Err::<String, RepositoryError>(e),
                }
                &&& g.len() == 0 ==> r is Err
            }),
    {
        let vehicle = self.vehicle_repository.get_vehicle(user_id, vehicle_id);
        match vehicle {
            Ok(found) => Ok(vehicle_name_or_unknown(found)),
            Err(e) => Err(e),
        }
    }

    /// Maps the representation in (generating an identifier where it
    /// lacks one), stores the vehicle, and maps the confirmation
    /// back; absence means the store failed.
    pub fn save_vehicle(&mut self, vehicle_dto: VehicleDTO) -> (r: Option<VehicleDTO>)
        requires
            vehicle_dto.wf(),
        ensures
            ({
                let s = old(self).vehicle_repository.save_accepts();
                &&& s.len() > 0 && s[0] ==> (r matches Some(d) && d.vehicle_id matches Some(id)
                    && d == vehicle_mapper::spec_vehicle_dto(
                    vehicle_mapper::spec_vehicle(vehicle_dto, id),
                ))
                &&& (s.len() > 0 && s[0] && vehicle_dto.vehicle_id is Some) ==> r == Some(
                    vehicle_dto,
                )
                &&& s.len() > 0 && !s[0] ==> r is None
                &&& s.len() == 0 ==> r is None
            }),
    {
        let ghost dto = vehicle_dto;
        let new_vehicle = vehicle_mapper::get_vehicle(vehicle_dto);
        proof {
            vehicle_mapper::lemma_mapping_preserves_wf(dto, new_vehicle.vehicle_id);
        }
        let vehicle = self.vehicle_repository.save_vehicle(new_vehicle);
        match vehicle {
            Some(v) => {
                proof {
                    if dto.vehicle_id is Some {
                        vehicle_mapper::lemma_dto_round_trip(dto, v.vehicle_id);
                    }
                }
                Some(vehicle_mapper::get_vehicle_dto(v))
            },
            None => None,
        }
    }
}

} // verus!

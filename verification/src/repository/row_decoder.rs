//! Strict positional decoding of one result row into a vehicle: the
//! twelve cells must match the selected column list in order and
//! type, nulls being accepted only for the optional fields. A
//! mismatch is a decode failure, never a silent default.

use vstd::prelude::*;

use crate::dao::rows::{CqlValue, Row};
use crate::domain::vehicle::Vehicle;

verus! {

/// Why one row could not be decoded.
#[derive(Debug, Clone, Copy, PartialEq, Eq, Structural)]
pub enum DecodeError {
    /// The row does not hold exactly the twelve selected columns.
    ColumnCount,
    /// Some cell's type, or an unexpected null, does not match its
    /// column.
    CellMismatch,
}

/// Whether a row matches the selected column list: `name, user_id,
/// vehicle_id, created_at, vehicle_type, retired_at, brand, model,
/// distance, owner_since, manufacturing_date, picture`, by position.
pub open spec fn row_decodes(row: Row) -> bool {
    let c = row.columns@;
    &&& c.len() == 12
    &&& c[0] matches Some(CqlValue::Text(_))
    &&& c[1] matches Some(CqlValue::Uuid(_))
    &&& c[2] matches Some(CqlValue::Uuid(_))
    &&& c[3] matches Some(CqlValue::Timestamp(_))
    &&& c[4] matches Some(CqlValue::Text(_))
    &&& (c[5] is None || c[5] matches Some(CqlValue::Timestamp(_)))
    &&& c[6] matches Some(CqlValue::Text(_))
    &&& c[7] matches Some(CqlValue::Text(_))
    &&& c[8] matches Some(CqlValue::Int(_))
    &&& c[9] matches Some(CqlValue::Date(_))
    &&& c[10] matches Some(CqlValue::Date(_))
    &&& (c[11] is None || c[11] matches Some(CqlValue::Text(_)))
}

/// The vehicle a matching row holds.
pub open spec fn decoded_vehicle(row: Row) -> Vehicle {
    let c = row.columns@;
    Vehicle {
        name: c[0]->0->Text_0,
        user_id: c[1]->0->Uuid_0,
        vehicle_id: c[2]->0->Uuid_0,
        created_at: c[3]->0->Timestamp_0,
        vehicle_type: c[4]->0->Text_0,
        retired_at: if c[5] is Some {
            Some(c[5]->0->Timestamp_0)
        } else {
            None
        },
        brand: c[6]->0->Text_0,
        model: c[7]->0->Text_0,
        distance: c[8]->0->Int_0,
        owner_since: c[9]->0->Date_0,
        manufacturing_date: c[10]->0->Date_0,
        picture: if c[11] is Some {
            Some(c[11]->0->Text_0)
        } else {
            None
        },
    }
}

/// The failure a non-matching row decodes to.
pub open spec fn decode_error_of(row: Row) -> DecodeError {
    if row.columns@.len() != 12 {
        DecodeError::ColumnCount
    } else {
        DecodeError::CellMismatch
    }
}

/// Decodes one row, strictly: exactly the matching rows decode, and
/// they decode to exactly the vehicle they hold.
pub fn decode_vehicle(row: &Row) -> (r: Result<Vehicle, DecodeError>)
    ensures
        r is Ok <==> row_decodes(*row),
        row_decodes(*row) ==> r == Ok::<Vehicle, DecodeError>(decoded_vehicle(*row)),
        !row_decodes(*row) ==> r == Err::<Vehicle, DecodeError>(decode_error_of(*row)),
{
    if row.columns.len() != 12 {
        return Err(DecodeError::ColumnCount);
    }
    let name = match &row.columns[0] {
        Some(CqlValue::Text(t)) => t.clone(),
        _ => {
            return Err(DecodeError::CellMismatch);
        },
    };
    let user_id = match &row.columns[1] {
        Some(CqlValue::Uuid(u)) => *u,
        _ => {
            return Err(DecodeError::CellMismatch);
        },
    };
    let vehicle_id = match &row.columns[2] {
        Some(CqlValue::Uuid(u)) => *u,
        _ => {
            return Err(DecodeError::CellMismatch);
        },
    };
    let created_at = match &row.columns[3] {
        Some(CqlValue::Timestamp(t)) => *t,
        _ => {
            return Err(DecodeError::CellMismatch);
        },
    };
    let vehicle_type = match &row.columns[4] {
        Some(CqlValue::Text(t)) => t.clone(),
        _ => {
            return Err(DecodeError::CellMismatch);
        },
    };
    let retired_at = match &row.columns[5] {
        Some(CqlValue::Timestamp(t)) => Some(*t),
        None => None,
        _ => {
            return Err(DecodeError::CellMismatch);
        },
    };
    let brand = match &row.columns[6] {
        Some(CqlValue::Text(t)) => t.clone(),
        _ => {
            return Err(DecodeError::CellMismatch);
        },
    };
    let model = match &row.columns[7] {
        Some(CqlValue::Text(t)) => t.clone(),
        _ => {
            return Err(DecodeError::CellMismatch);
        },
    };
    let distance = match &row.columns[8] {
        Some(CqlValue::Int(n)) => *n,
        _ => {
            return Err(DecodeError::CellMismatch);
        },
    };
    let owner_since = match &row.columns[9] {
        Some(CqlValue::Date(d)) => *d,
        _ => {
            return Err(DecodeError::CellMismatch);
        },
    };
    let manufacturing_date = match &row.columns[10] {
        Some(CqlValue::Date(d)) => *d,
        _ => {
            return Err(DecodeError::CellMismatch);
        },
    };
    let picture = match &row.columns[11] {
        Some(CqlValue::Text(t)) => Some(t.clone()),
        None => None,
        _ => {
            return Err(DecodeError::CellMismatch);
        },
    };
    Ok(
        Vehicle {
            name,
            user_id,
            vehicle_id,
            created_at,
            vehicle_type,
            retired_at,
            brand,
            model,
            distance,
            owner_since,
            manufacturing_date,
            picture,
        },
    )
}

/// Decoding is type-strict: a row whose first cell is not text — an
/// integer where text is expected, say — decodes to no vehicle.
pub proof fn lemma_decode_rejects_mismatch(row: Row)
    requires
        !(row.columns@[0] matches Some(CqlValue::Text(_))),
    ensures
        !row_decodes(row),
{
}

/// Encoding round trip: a row fabricated from a vehicle's fields, in
/// the selected column order, decodes back to that vehicle exactly.
pub proof fn lemma_fabricated_row_decodes_back(v: Vehicle, row: Row)
    requires
        row.columns@.len() == 12,
        row.columns@[0] == Some(CqlValue::Text(v.name)),
        row.columns@[1] == Some(CqlValue::Uuid(v.user_id)),
        row.columns@[2] == Some(CqlValue::Uuid(v.vehicle_id)),
        row.columns@[3] == Some(CqlValue::Timestamp(v.created_at)),
        row.columns@[4] == Some(CqlValue::Text(v.vehicle_type)),
        row.columns@[5] == match v.retired_at {
            Some(t) => Some(CqlValue::Timestamp(t)),
            None => None,
        },
        row.columns@[6] == Some(CqlValue::Text(v.brand)),
        row.columns@[7] == Some(CqlValue::Text(v.model)),
        row.columns@[8] == Some(CqlValue::Int(v.distance)),
        row.columns@[9] == Some(CqlValue::Date(v.owner_since)),
        row.columns@[10] == Some(CqlValue::Date(v.manufacturing_date)),
        row.columns@[11] == match v.picture {
            Some(p) => Some(CqlValue::Text(p)),
            None => None,
        },
    ensures
        row_decodes(row),
        decoded_vehicle(row) == v,
{
    assert(decoded_vehicle(row) =~= v);
}

} // verus!

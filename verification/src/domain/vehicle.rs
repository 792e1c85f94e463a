//! The vehicle entity: the domain record stored under the composite
//! key (`user_id`, `vehicle_id`).

use vstd::prelude::*;

use crate::domain::date::{timestamp_in_range, timestamp_in_range_check, Date};
use crate::domain::uid::Uuid;

verus! {

/// The stored record. Durations are seconds since the Unix epoch;
/// `retired_at` is absent while the vehicle is still active.
#[derive(Debug, Clone)]
#[verifier::ext_equal]
pub struct Vehicle {
    pub name: String,
    pub user_id: Uuid,
    pub vehicle_id: Uuid,
    pub created_at: i64,
    pub vehicle_type: String,
    pub retired_at: Option<i64>,
    pub brand: String,
    pub model: String,
    pub distance: i32,
    pub owner_since: Date,
    pub manufacturing_date: Date,
    pub picture: Option<String>,
}

impl Vehicle {
    /// A record whose timestamps and dates this layer can render in
    /// query text: non-negative times no later than year 9999, and
    /// real calendar dates.
    pub open spec fn wf(self) -> bool {
        &&& timestamp_in_range(self.created_at as int)
        &&& match self.retired_at {
            Some(t) => timestamp_in_range(t as int),
            None => true,
        }
        &&& self.owner_since.wf()
        &&& self.manufacturing_date.wf()
    }

    /// Decides `wf` at run time, for callers holding a record of
    /// unchecked provenance.
    pub fn wf_check(&self) -> (b: bool)
        ensures
            b == self.wf(),
    {
        let retired_ok = match self.retired_at {
            Some(t) => timestamp_in_range_check(t),
            None => true,
        };
        timestamp_in_range_check(self.created_at) && retired_ok && self.owner_since.is_wf()
            && self.manufacturing_date.is_wf()
    }
}

} // verus!

//! The domain records and the plain value types their fields are made
//! of: calendar dates, identifiers, the vehicle entity.

pub mod date;
pub mod uid;
pub mod vehicle;
pub mod vehicle_type;

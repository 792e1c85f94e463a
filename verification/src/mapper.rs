//! The pure conversions between the domain record and its
//! externally-facing representation.

pub mod vehicle_mapper;

//! The repository over the vehicle table: positional row decoding,
//! deterministic query text, and the fetch/store operations.

pub mod row_decoder;
pub mod vehicle_repository;

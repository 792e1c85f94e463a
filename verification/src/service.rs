//! The service layer the surrounding controller depends on.

pub mod vehicle_service;

//! The externally-facing record shapes the surrounding layer
//! exchanges with callers.

pub mod book;
pub mod vehicle_dto;

//! A resilient data-access layer for a vehicle resource backed by a
//! column-store database: a retrying query executor, a strict positional
//! row decoder, a repository that tells "not found" apart from failure,
//! a pure mapper between the domain record and its external
//! representation, and the service that ties them together.

pub mod controller;
pub mod dao;
pub mod domain;
pub mod dto;
pub mod mapper;
pub mod repository;
pub mod service;
pub mod text;

//! The data-access boundary: the shape of query results, and the
//! query executor that retries transient failures.

pub mod rows;
pub mod session_manager;

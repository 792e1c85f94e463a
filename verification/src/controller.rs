//! What the HTTP layer answers with: error-catcher messages and the
//! bodies of the two demonstration endpoints.

pub mod catchers;
pub mod controllers;

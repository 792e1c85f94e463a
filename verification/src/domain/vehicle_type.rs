//! The closed set of vehicle kinds an earlier revision of the record
//! used; the stored field is free-form text nowadays, and this enum
//! names the one kind that revision knew.

use vstd::prelude::*;

verus! {

#[allow(non_camel_case_types)]
#[derive(Debug, Clone, Copy, PartialEq, Eq, Structural)]
pub enum VehicleType {
    bike,
}

} // verus!

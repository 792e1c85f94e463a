//! The book record of the demonstration endpoint.

use vstd::prelude::*;

verus! {

#[derive(Debug, Clone)]
pub struct Book {
    pub title: String,
    pub author: String,
    pub isbn: String,
}

} // verus!

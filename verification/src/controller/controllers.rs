//! The bodies of the demonstration endpoints. Routing, JSON framing
//! and HTTP status codes live outside this library; what each
//! endpoint answers with is built here.

use vstd::prelude::*;
use vstd::string::StringExecFns;

use crate::dto::book::Book;

verus! {

/// A status/message answer, as the demonstration endpoints produce.
#[derive(Debug, Clone)]
pub struct ApiMessage {
    pub status: String,
    pub message: String,
}

/// The greeting answer.
pub fn hello() -> (r: ApiMessage)
    ensures
        r.status@ == "success"@,
        r.message@ == "Hello API!"@,
{
    ApiMessage { status: String::from_str("success"), message: String::from_str("Hello API!") }
}

/// The answer to a newly submitted book: success, echoing the book's
/// ISBN.
pub fn new_book(book: Book) -> (r: ApiMessage)
    ensures
        r.status@ == "success"@,
        r.message == book.isbn,
{
    ApiMessage { status: String::from_str("success"), message: book.isbn }
}

} // verus!

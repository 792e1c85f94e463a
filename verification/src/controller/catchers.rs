//! Messages returned by the error catchers of the surrounding HTTP layer.
//! The catchers themselves (status codes, routing) live outside this
//! library; only the text they answer with is built here.

use vstd::prelude::*;
use vstd::string::StringExecFns;

verus! {

/// The body of the "not found" answer for a request whose path matched
/// no route.
pub fn not_found(path: &str) -> (r: String)
    ensures
        r@ == "Oh no! We couldn't find the requested path '"@ + path@ + "'"@,
{
    let mut r = String::from_str("Oh no! We couldn't find the requested path '");
    r.append(path);
    r.append("'");
    r
}

/// The body of the "internal server error" answer.
pub fn internal_error() -> (r: &'static str)
    ensures
        r@ == "Whoops! Looks like we messed up."@,
{
    "Whoops! Looks like we messed up."
}

} // verus!

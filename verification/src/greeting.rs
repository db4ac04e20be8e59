//! The fixed text that the service greets a client with.

use vstd::prelude::*;

verus! {

/// The greeting: always the same text, and no effect on anything.
pub fn hello() -> (text: &'static str)
    ensures
        text@ == "Hello from Axum! Try GET /users or POST /users"@,
{
    "Hello from Axum! Try GET /users or POST /users"
}

} // verus!

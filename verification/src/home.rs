//! The two handlers that answer without looking anything up.
use crate::response::ApiResponse;
use vstd::prelude::*;
use vstd::string::StringExecFns;

verus! {

/// The greeting for a name.
pub open spec fn greeting(name: Seq<char>) -> Seq<char> {
    "Hello "@ + name + "!"@
}

/// Greets the caller by the name in the path.
pub fn greet(name: &str) -> (response: ApiResponse)
    ensures
        response@.status_code == 200,
        response@.body == greeting(name@),
        response.well_formed(),
{
    let mut body = "Hello ".to_owned();
    body.append(name);
    body.append("!");
    ApiResponse::new(200, body)
}

/// Answers a probe.
pub fn test() -> (response: ApiResponse)
    ensures
        response@.status_code == 200,
        response@.body == "Testing"@,
        response.well_formed(),
{
    ApiResponse::new(200, "Testing".to_owned())
}

} // verus!

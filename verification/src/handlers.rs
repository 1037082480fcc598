//! The leaf handlers: each takes the parsed request value it needs (none,
//! the full path, or a decoded JSON body) and produces one successful
//! response payload.

use vstd::prelude::*;
use vstd::string::StringExecFns;
use crate::error::Response;
use crate::jsontext::json_escape_string;
use crate::jsontext::json_string_lit;

verus! {

/// serde_json's JSON value type: the decoded body of the echo endpoint,
/// carried through opaquely.
#[verifier::external_type_specification]
#[verifier::external_body]
pub struct ExValue(serde_json::Value);

/// Seconds the delay-demonstration handler suspends before replying.
pub const WAIT_DELAY_SECONDS: u64 = 3;

/// The fixed JSON body of the hello endpoint.
pub open spec fn hello_body() -> Seq<char> {
    "{\"message\":\"Hello,World!\"}"@
}

/// The fixed JSON body of the delay endpoint.
pub open spec fn wait_body() -> Seq<char> {
    "{\"message\":\"wait mow!\"}"@
}

/// The JSON body of the path echo endpoint: an object whose `fullPath`
/// member is the raw request path as a JSON string literal.
pub open spec fn path_echo_body(p: Seq<char>) -> Seq<char> {
    "{\"fullPath\":"@ + json_string_lit(p) + "}"@
}

/// The health check: a fixed plain-text success reply.
pub fn healthcheck_handler() -> (r: Response)
    ensures
        r.status == 200,
        r.body@ == "Success"@,
{
    Response { status: 200, body: String::from_str("Success") }
}

/// The hello endpoint: a fixed JSON greeting.
pub fn hello_handler() -> (r: Response)
    ensures
        r.status == 200,
        r.body@ == hello_body(),
{
    Response { status: 200, body: String::from_str("{\"message\":\"Hello,World!\"}") }
}

/// The delay endpoint's reply, produced after the caller has suspended
/// for `WAIT_DELAY_SECONDS`.
pub fn wait_handler() -> (r: Response)
    ensures
        r.status == 200,
        r.body@ == wait_body(),
{
    Response { status: 200, body: String::from_str("{\"message\":\"wait mow!\"}") }
}

/// The path echo endpoint: reports the raw request path back as JSON.
pub fn path_handler(path: &str) -> (r: Response)
    ensures
        r.status == 200,
        r.body@ == path_echo_body(path@),
{
    let lit = json_escape_string(path);
    let body = String::from_str("{\"fullPath\":").concat(lit.as_str()).concat("}");
    Response { status: 200, body }
}

/// The JSON echo endpoint: returns the decoded body exactly as received.
pub fn json_handler(params: serde_json::Value) -> (r: serde_json::Value)
    ensures
        r == params,
{
    params
}

} // verus!

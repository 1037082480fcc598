//! The route composer: an ordered routing tree over the reserved
//! management prefix, with a recovery stage at each group boundary, and
//! the fall-through into the static resolution chain. Its verdict is a
//! single `Step` that prescribes exactly what the server does next.

use vstd::prelude::*;
use vstd::string::StringExecFns;
use crate::error::Rejection;
use crate::error::Response;
use crate::error::handle_recover;
use crate::handlers::WAIT_DELAY_SECONDS;
use crate::handlers::healthcheck_handler;
use crate::handlers::hello_handler;
use crate::handlers::wait_handler;
use crate::handlers::path_handler;
use crate::handlers::hello_body;
use crate::handlers::wait_body;
use crate::handlers::path_echo_body;
use crate::statics::StaticGate;
use crate::statics::static_handler;
use crate::statics::reserved_path;
use crate::statics::probe_target;
use crate::text::is_prefix_of;
use crate::text::str_eq;
use crate::text::has_prefix;

verus! {

/// The request methods the router distinguishes. Only the JSON echo route
/// is bound to a method (POST); every other route matches any method.
#[derive(Debug, Clone, Copy, PartialEq, Eq, Structural)]
pub enum Method {
    Get,
    Post,
    Other,
}

/// The one step the server takes for a request: either a finished
/// response, or the single piece of outside work (a suspension, a body
/// decode, a filesystem probe, a file to serve) still owed.
#[derive(Debug, Clone, PartialEq)]
pub enum Step {
    /// Send this response now.
    Reply(Response),
    /// Suspend for the given number of seconds, then send the response.
    DelayedReply(u64, Response),
    /// Decode the request body as JSON; echo the value, or hand the
    /// failure to `handle_recover`.
    NeedsJsonBody,
    /// Ask the filesystem whether this location is a directory, then
    /// finish with `resolve_dir_probe`.
    ProbeDir(String),
    /// Redirect to this location.
    Redirect(String),
    /// Serve the request path from the static content root.
    Serve,
}

/// The health-check group: everything at or under `/service/healthcheck`.
pub open spec fn in_healthcheck_group(p: Seq<char>) -> bool {
    p == "/service/healthcheck"@ || is_prefix_of("/service/healthcheck/"@, p)
}

/// The general-operations group: everything at or under
/// `/service/manage/other`.
pub open spec fn in_other_group(p: Seq<char>) -> bool {
    p == "/service/manage/other"@ || is_prefix_of("/service/manage/other/"@, p)
}

pub open spec fn is_hello(p: Seq<char>) -> bool {
    p == "/service/manage/other/hello"@
}

pub open spec fn is_wait(p: Seq<char>) -> bool {
    p == "/service/manage/other/wait"@
}

pub open spec fn is_json(p: Seq<char>) -> bool {
    p == "/service/manage/other/json"@
}

/// The path echo route matches its own path and everything under it.
pub open spec fn in_path_echo(p: Seq<char>) -> bool {
    p == "/service/manage/other/path"@ || is_prefix_of("/service/manage/other/path/"@, p)
}

/// A failure intercepted at a group boundary and already mapped: the 404
/// with an empty body that both a no-match and a method mismatch fold to.
pub open spec fn group_not_found(s: Step) -> bool {
    s matches Step::Reply(r) && r.status == 404 && r.body@ == Seq::<char>::empty()
}

/// What the health-check group replies once its prefix has matched.
pub open spec fn healthcheck_group_ok(p: Seq<char>, s: Step) -> bool {
    if p == "/service/healthcheck"@ {
        s matches Step::Reply(r) && r.status == 200 && r.body@ == "Success"@
    } else {
        group_not_found(s)
    }
}

/// What the general-operations group replies once its prefix has matched.
/// Alternatives are tried in order; the first match wins.
pub open spec fn other_group_ok(m: Method, p: Seq<char>, s: Step) -> bool {
    if is_hello(p) {
        s matches Step::Reply(r) && r.status == 200 && r.body@ == hello_body()
    } else if is_wait(p) {
        s matches Step::DelayedReply(d, r) && d == WAIT_DELAY_SECONDS && r.status == 200
            && r.body@ == wait_body()
    } else if is_json(p) {
        if m == Method::Post {
            s == Step::NeedsJsonBody
        } else {
            group_not_found(s)
        }
    } else if in_path_echo(p) {
        s matches Step::Reply(r) && r.status == 200 && r.body@ == path_echo_body(p)
    } else {
        group_not_found(s)
    }
}

/// What the whole routing tree decides for a request: exactly which step
/// the server takes. The top-level alternation tries the health-check
/// group, then the general-operations group, then the static fallback,
/// whose security gate reserves the management namespace.
pub open spec fn step_ok(m: Method, p: Seq<char>, debug: bool, s: Step) -> bool {
    if in_healthcheck_group(p) {
        healthcheck_group_ok(p, s)
    } else if in_other_group(p) {
        other_group_ok(m, p, s)
    } else if reserved_path(p) {
        group_not_found(s)
    } else if p.len() == 0 || p[p.len() - 1] != '/' {
        s matches Step::ProbeDir(t) && t@ == probe_target(p)
    } else {
        s == Step::Serve
    }
}

/// The health-check group: answers only under its own prefix, and catches
/// every failure inside the group at its own recovery stage.
pub fn healthcheck_router(path: &str, debug: bool) -> (s: Option<Step>)
    ensures
        match s {
            Some(st) => in_healthcheck_group(path@) && healthcheck_group_ok(path@, st),
            None => !in_healthcheck_group(path@),
        },
{
    if !(str_eq(path, "/service/healthcheck") || has_prefix(path, "/service/healthcheck/")) {
        return None;
    }
    if str_eq(path, "/service/healthcheck") {
        Some(Step::Reply(healthcheck_handler()))
    } else {
        Some(Step::Reply(handle_recover(&Rejection::NotFound, debug)))
    }
}

/// The general-operations group: hello, wait, JSON echo (POST only) and
/// path echo, tried in order, with one recovery stage for the group.
pub fn other_router(m: &Method, path: &str, debug: bool) -> (s: Option<Step>)
    ensures
        match s {
            Some(st) => in_other_group(path@) && other_group_ok(*m, path@, st),
            None => !in_other_group(path@),
        },
{
    if !(str_eq(path, "/service/manage/other") || has_prefix(path, "/service/manage/other/")) {
        return None;
    }
    if str_eq(path, "/service/manage/other/hello") {
        Some(Step::Reply(hello_handler()))
    } else if str_eq(path, "/service/manage/other/wait") {
        Some(Step::DelayedReply(WAIT_DELAY_SECONDS, wait_handler()))
    } else if str_eq(path, "/service/manage/other/json") {
        match m {
            Method::Post => Some(Step::NeedsJsonBody),
            _ => Some(Step::Reply(handle_recover(&Rejection::MethodNotAllowed, debug))),
        }
    } else if str_eq(path, "/service/manage/other/path") || has_prefix(
        path,
        "/service/manage/other/path/",
    ) {
        Some(Step::Reply(path_handler(path)))
    } else {
        Some(Step::Reply(handle_recover(&Rejection::NotFound, debug)))
    }
}

/// The static resolution chain: the gatekeeper first, then either the
/// directory probe or the file server.
pub fn static_serve(path: &str) -> (s: Step)
    ensures
        reserved_path(path@) ==> group_not_found(s),
        !reserved_path(path@) && !(path@.len() > 0 && path@[path@.len() - 1] == '/') ==> (
        s matches Step::ProbeDir(t) && t@ == probe_target(path@)),
        !reserved_path(path@) && path@.len() > 0 && path@[path@.len() - 1] == '/' ==> s
            == Step::Serve,
{
    match static_handler(path) {
        StaticGate::Deny => Step::Reply(Response { status: 404, body: String::new() }),
        StaticGate::ProbeDir(target) => Step::ProbeDir(target),
        StaticGate::Decline => Step::Serve,
    }
}

/// The top of the routing tree: every request gets exactly one step.
pub fn routers(m: &Method, path: &str, debug: bool) -> (s: Step)
    ensures
        step_ok(*m, path@, debug, s),
{
    match healthcheck_router(path, debug) {
        Some(st) => st,
        None => match other_router(m, path, debug) {
            Some(st) => st,
            None => static_serve(path),
        },
    }
}

/// Finishes directory normalization after the filesystem probe: a
/// directory request missing its trailing slash is redirected to the same
/// path with "/" appended; anything else passes to the file server.
pub fn resolve_dir_probe(path: &str, is_dir: bool) -> (s: Step)
    ensures
        is_dir ==> (s matches Step::Redirect(loc) && loc@ == path@ + "/"@),
        !is_dir ==> s == Step::Serve,
{
    if is_dir {
        Step::Redirect(String::from_str(path).concat("/"))
    } else {
        Step::Serve
    }
}

} // verus!

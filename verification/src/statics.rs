//! The static fallback resolver: the gatekeeper run before the generic
//! static file server. It denies the reserved management namespace before
//! any filesystem access, and asks for a directory probe so that a
//! directory request missing its trailing slash can be redirected.

use vstd::prelude::*;
use vstd::string::StringExecFns;
use crate::text::has_prefix;
use crate::text::is_prefix_of;
use crate::text::str_eq;
use crate::text::ends_in_slash;
use crate::text::strip_leading_slashes;
use crate::text::strip_slashes;

verus! {

/// The reserved management prefix: the path is `/service` itself or lies
/// under `/service/`.
pub open spec fn reserved_path(p: Seq<char>) -> bool {
    p == "/service"@ || is_prefix_of("/service/"@, p)
}

/// The filesystem location probed for a directory: the content root
/// joined with the request path, leading slashes stripped.
pub open spec fn probe_target(p: Seq<char>) -> Seq<char> {
    "public_html/"@ + strip_slashes(p)
}

/// What the gatekeeper decides, before any filesystem access.
#[derive(Debug, Clone, PartialEq)]
pub enum StaticGate {
    /// Reserved namespace: answer 404 now; the filesystem is not consulted.
    Deny,
    /// Probe this filesystem location; a directory means the request must
    /// be redirected to the same path with a trailing slash.
    ProbeDir(String),
    /// Not this resolver's concern: pass to the generic file server.
    Decline,
}

/// The gatekeeper. The security gate runs first: under the reserved
/// prefix the decision is `Deny` and nothing is ever probed, so a crafted
/// path cannot use directory normalization to probe that namespace.
pub fn static_handler(path: &str) -> (g: StaticGate)
    ensures
        reserved_path(path@) ==> g == StaticGate::Deny,
        !reserved_path(path@) && !(path@.len() > 0 && path@[path@.len() - 1] == '/') ==> (
        g matches StaticGate::ProbeDir(t) && t@ == probe_target(path@)),
        !reserved_path(path@) && path@.len() > 0 && path@[path@.len() - 1] == '/' ==> g
            == StaticGate::Decline,
{
    if has_prefix(path, "/service/") || str_eq(path, "/service") {
        StaticGate::Deny
    } else if !ends_in_slash(path) {
        let target = String::from_str("public_html/").concat(strip_leading_slashes(path));
        StaticGate::ProbeDir(target)
    } else {
        StaticGate::Decline
    }
}

} // verus!

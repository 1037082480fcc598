//! A small HTTP edge router: an ordered routing tree over a reserved
//! management prefix, leaf handlers producing fixed or echoed payloads, a
//! gatekeeper for the static-file fallback, and a total error-to-status
//! mapper. Routing, gating and mapping are decision functions from plain
//! request data (method, path, decoded body) to a single prescribed step;
//! the surrounding server performs the I/O those steps call for.

pub mod error;
pub mod handlers;
pub mod jsontext;
pub mod laws;
pub mod routing;
pub mod statics;
pub mod text;

//! Access gate: the request-level credential check that precedes every
//! conversion. A request carries an authorization header; it is let through
//! exactly when that header is present and equal to the configured secret.

use vstd::prelude::*;
use crate::bytes::bytes_eq;

verus! {

/// A request is cleared exactly when its credential equals the
/// configured secret, byte for byte.
pub open spec fn gate_passes(header: Option<Seq<u8>>, secret: Seq<u8>) -> bool {
    match header {
        Some(h) => h == secret,
        None => false,
    }
}

/// View of an optional credential as an optional byte string.
pub open spec fn header_view(header: Option<Vec<u8>>) -> Option<Seq<u8>> {
    match header {
        Some(h) => Some(h@),
        None => None,
    }
}

/// Decides whether a request's credential is accepted. The comparison is
/// constant-time over the secret's length: no data-dependent early exit once
/// the lengths match.
pub fn authorize(header: &Option<Vec<u8>>, secret: &Vec<u8>) -> (r: bool)
    ensures
        r == gate_passes(header_view(*header), secret@),
{
    match header {
        Some(h) => bytes_eq(h, secret),
        None => false,
    }
}

} // verus!

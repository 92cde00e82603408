//! Core logic of a small media-streaming backend.
//!
//! Two kinds of media are served over HTTP: byte-range reads of a local
//! file, and a live relay of a remote audio stream reached over plain or
//! encrypted TCP. This crate holds the verified logic: HTTP range
//! semantics, the upstream request text, tolerant skipping of the
//! upstream response preamble, the relay's state machine, and the
//! dispatch decisions. The unverified binary around it performs the
//! actual file, socket and database I/O and hands plain values in and
//! out.

use vstd::prelude::*;

pub mod digits;
pub mod dispatch;
pub mod origin;
pub mod preamble;
pub mod range;
pub mod relay;
pub mod request;

verus! {

/// Error taxonomy of the backend. Every fallible operation of the
/// library returns one of these; the serving layer maps each to an
/// HTTP status code via `status_code`.
#[derive(Clone, Copy, Debug, PartialEq, Eq, Structural)]
pub enum MediaError {
    /// No matching media row, or the local file is missing.
    NotFound,
    /// Unrecognized media type, unparseable URL, or malformed range header.
    BadRequest,
    /// The requested transport scheme is neither `http` nor `https`.
    UnsupportedScheme,
    /// The requested byte range lies outside the file's bounds.
    RangeNotSatisfiable,
    /// Transport setup to the remote origin failed before TLS.
    UpstreamUnreachable,
    /// The TLS handshake with the remote origin failed.
    UpstreamTlsError,
    /// An I/O failure after streaming had already begun.
    StreamIoError,
}

/// The HTTP status code that a setup-phase failure is reported with.
pub open spec fn spec_status_code(e: MediaError) -> u16 {
    match e {
        MediaError::NotFound => 404,
        MediaError::BadRequest => 400,
        MediaError::UnsupportedScheme => 400,
        MediaError::RangeNotSatisfiable => 416,
        MediaError::UpstreamUnreachable => 502,
        MediaError::UpstreamTlsError => 502,
        MediaError::StreamIoError => 502,
    }
}

/// Maps an error to the status code of the complete HTTP error response
/// that the serving layer sends when the failure happens before any body
/// bytes have gone out. A `StreamIoError` that strikes later cannot change
/// the status line any more; the connection is simply closed.
pub fn status_code(e: MediaError) -> (code: u16)
    ensures
        code == spec_status_code(e),
{
    match e {
        MediaError::NotFound => 404,
        MediaError::BadRequest => 400,
        MediaError::UnsupportedScheme => 400,
        MediaError::RangeNotSatisfiable => 416,
        MediaError::UpstreamUnreachable => 502,
        MediaError::UpstreamTlsError => 502,
        MediaError::StreamIoError => 502,
    }
}

} // verus!

//! The minimal upstream request that the relay sends: an HTTP/1.0 GET
//! with `Connection: close`, so the origin's own end-of-stream is the
//! stream's natural termination and no keep-alive machinery is needed.

use vstd::prelude::*;

verus! {

/// The exact text of the upstream request for a host and path: the
/// request line, a `Host` header, a fixed `User-Agent`, `Connection:
/// close`, and the blank line that ends the head.
pub open spec fn spec_request_text(host: Seq<char>, path: Seq<char>) -> Seq<char> {
    "GET "@ + path + " HTTP/1.0\r\nHost: "@ + host
        + "\r\nUser-Agent: Rust-Stream\r\nConnection: close\r\n\r\n"@
}

/// Builds the upstream request text. The serving layer writes these
/// bytes to the transport, flushes, and sends nothing further.
pub fn build_request(host: &str, path: &str) -> (r: String)
    ensures
        r@ == spec_request_text(host@, path@),
{
    let mut r = String::from_str("GET ");
    r.append(path);
    r.append(" HTTP/1.0\r\nHost: ");
    r.append(host);
    r.append("\r\nUser-Agent: Rust-Stream\r\nConnection: close\r\n\r\n");
    proof {
        assert(r@ =~= spec_request_text(host@, path@));
    }
    r
}

} // verus!

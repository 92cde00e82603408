//! HTTP range semantics for local files: parsing the `Range` header,
//! validating the requested span against the file size, and rendering
//! the response headers.

use vstd::prelude::*;
use crate::digits::{all_digits, dec_str, dec_val, u64_to_string};
use crate::MediaError;

verus! {

/// A range header as written by the client: `bytes=<start>-[<end>]`.
/// `end == None` means "to the end of the file".
#[derive(Debug)]
pub struct RawRange {
    pub start: u64,
    pub end: Option<u64>,
}

/// The mathematical content of a parsed range header.
pub open spec fn raw_view(r: RawRange) -> (nat, Option<nat>) {
    (
        r.start as nat,
        match r.end {
            Some(e) => Some(e as nat),
            None => None,
        },
    )
}

/// The bytes `bytes=`, the required prefix of a range header value.
pub open spec fn range_prefix() -> Seq<u8> {
    seq![98u8, 121u8, 116u8, 101u8, 115u8, 61u8]
}

/// The position of the first `-` byte, if any.
pub open spec fn first_dash(s: Seq<u8>) -> Option<int>
    decreases s.len(),
{
    if s.len() == 0 {
        None
    } else if s[0] == 45 {
        Some(0)
    } else {
        match first_dash(s.skip(1)) {
            Some(i) => Some(i + 1),
            None => None,
        }
    }
}

/// What a range header value denotes: `Some((start, end))` exactly when
/// the value is `bytes=` followed by a nonempty run of digits, a dash,
/// and an optional nonempty run of digits, both numbers fitting in a
/// `u64`.
pub open spec fn spec_parse_range(h: Seq<u8>) -> Option<(nat, Option<nat>)> {
    if h.len() < 6 || h.take(6) != range_prefix() {
        None
    } else {
        let rest = h.skip(6);
        match first_dash(rest) {
            None => None,
            Some(d) => {
                let sd = rest.take(d);
                let ed = rest.skip(d + 1);
                if sd.len() == 0 || !all_digits(sd) || dec_val(sd) > u64::MAX {
                    None
                } else if ed.len() == 0 {
                    Some((dec_val(sd), None))
                } else if all_digits(ed) && dec_val(ed) <= u64::MAX {
                    Some((dec_val(sd), Some(dec_val(ed))))
                } else {
                    None
                }
            },
        }
    }
}

proof fn lemma_first_dash_at(s: Seq<u8>, i: int)
    requires
        0 <= i < s.len(),
        s[i] == 45,
        forall|j: int| 0 <= j < i ==> s[j] != 45,
    ensures
        first_dash(s) == Some(i),
    decreases i,
{
    if i > 0 {
        lemma_first_dash_at(s.skip(1), i - 1);
    }
}

proof fn lemma_first_dash_none(s: Seq<u8>)
    requires
        forall|j: int| 0 <= j < s.len() ==> s[j] != 45,
    ensures
        first_dash(s) is None,
    decreases s.len(),
{
    if s.len() > 0 {
        lemma_first_dash_none(s.skip(1));
    }
}

/// Parses a client range header value. Returns `Ok` exactly on the
/// well-formed values of `spec_parse_range`; anything else is a
/// malformed header and a `BadRequest`.
pub fn parse_range_header(h: &[u8]) -> (r: Result<RawRange, MediaError>)
    ensures
        r is Ok <==> spec_parse_range(h@) is Some,
        r matches Ok(rr) ==> Some(raw_view(rr)) == spec_parse_range(h@),
        r matches Err(e) ==> e == MediaError::BadRequest,
{
    if h.len() < 6 {
        return Err(MediaError::BadRequest);
    }
    if !(h[0] == 98 && h[1] == 121 && h[2] == 116 && h[3] == 101 && h[4] == 115 && h[5] == 61) {
        proof {
            assert(h@.take(6) != range_prefix());
        }
        return Err(MediaError::BadRequest);
    }
    proof {
        assert(h@.take(6) =~= range_prefix());
    }
    // Find the dash that separates the two numbers.
    let ghost rest = h@.skip(6);
    let mut i: usize = 6;
    while i < h.len() && h[i] != 45
        invariant
            6 <= i <= h@.len(),
            rest == h@.skip(6),
            forall|j: int| 0 <= j < i - 6 ==> rest[j] != 45,
        decreases h@.len() - i,
    {
        proof {
            assert(rest[i - 6] == h@[i as int]);
        }
        i = i + 1;
    }
    if i == h.len() {
        proof {
            lemma_first_dash_none(rest);
        }
        return Err(MediaError::BadRequest);
    }
    proof {
        assert(rest[i - 6] == h@[i as int]);
        lemma_first_dash_at(rest, i - 6);
    }
    let ghost d: int = i - 6;
    let start_bytes = vstd::slice::slice_subrange(h, 6, i);
    proof {
        assert(start_bytes@ =~= rest.take(d));
    }
    let start = match crate::digits::parse_u64(start_bytes) {
        Some(n) => n,
        None => {
            return Err(MediaError::BadRequest);
        },
    };
    let end_bytes = vstd::slice::slice_subrange(h, i + 1, h.len());
    proof {
        assert(end_bytes@ =~= rest.skip(d + 1));
    }
    if end_bytes.len() == 0 {
        return Ok(RawRange { start, end: None });
    }
    let end = match crate::digits::parse_u64(end_bytes) {
        Some(n) => n,
        None => {
            return Err(MediaError::BadRequest);
        },
    };
    Ok(RawRange { start, end: Some(end) })
}

/// A byte span of a file, validated against the file size: the bytes at
/// offsets `start <= i < end_ex` of a file of `total` bytes. `partial`
/// records whether the client asked for a range at all; it decides
/// between `206 Partial Content` and a full-file `200 OK`.
#[derive(Debug)]
pub struct HttpRange {
    pub start: u64,
    pub end_ex: u64,
    pub total: u64,
    pub partial: bool,
}

impl HttpRange {
    /// The span lies within the file.
    pub open spec fn wf(self) -> bool {
        self.start <= self.end_ex <= self.total
    }
}

/// Which span a request denotes, if it is satisfiable:
/// - no range header: the whole file (even when it is empty);
/// - `bytes=start-`: from `start` to the end, needing `start < total`;
/// - `bytes=start-end`: needing `start <= end < total`.
/// The result is `(start, end_ex)` with `end_ex` exclusive.
pub open spec fn spec_resolve(raw: Option<(nat, Option<nat>)>, total: nat) -> Option<(nat, nat)> {
    match raw {
        None => Some((0, total)),
        Some((s, None)) => if s < total {
            Some((s, total))
        } else {
            None
        },
        Some((s, Some(e))) => if s <= e && e < total {
            Some((s, (e + 1) as nat))
        } else {
            None
        },
    }
}

/// Validates a parsed range against the file size. An absent header is
/// a full-file request; an unsatisfiable range is a `RangeNotSatisfiable`.
pub fn resolve_range(raw: Option<RawRange>, total: u64) -> (r: Result<HttpRange, MediaError>)
    ensures
        r is Ok <==> spec_resolve(
            match raw {
                Some(rr) => Some(raw_view(rr)),
                None => None,
            },
            total as nat,
        ) is Some,
        r matches Ok(hr) ==> {
            &&& Some((hr.start as nat, hr.end_ex as nat)) == spec_resolve(
                match raw {
                    Some(rr) => Some(raw_view(rr)),
                    None => None,
                },
                total as nat,
            )
            &&& hr.total == total
            &&& hr.partial == raw is Some
            &&& hr.wf()
        },
        r matches Err(e) ==> e == MediaError::RangeNotSatisfiable,
{
    match raw {
        None => Ok(HttpRange { start: 0, end_ex: total, total, partial: false }),
        Some(rr) => match rr.end {
            None => {
                if rr.start < total {
                    Ok(HttpRange { start: rr.start, end_ex: total, total, partial: true })
                } else {
                    Err(MediaError::RangeNotSatisfiable)
                }
            },
            Some(e) => {
                if rr.start <= e && e < total {
                    Ok(HttpRange { start: rr.start, end_ex: e + 1, total, partial: true })
                } else {
                    Err(MediaError::RangeNotSatisfiable)
                }
            },
        },
    }
}

/// The text of the `Content-Range` header for a span: `bytes
/// {start}-{end}/{total}` with `end` the inclusive last offset.
pub open spec fn spec_content_range(start: nat, end_ex: nat, total: nat) -> Seq<char>
    recommends
        start < end_ex,
{
    "bytes "@ + dec_str(start) + "-"@ + dec_str((end_ex - 1) as nat) + "/"@ + dec_str(total)
}

impl HttpRange {
    /// The `Content-Length` of the response: the number of bytes served.
    pub fn content_length(&self) -> (n: u64)
        requires
            self.wf(),
        ensures
            n == self.end_ex - self.start,
    {
        self.end_ex - self.start
    }

    /// The HTTP status of the response: `206 Partial Content` when the
    /// client asked for a range, `200 OK` for the full-file default.
    pub fn status(&self) -> (code: u16)
        ensures
            code == (if self.partial {
                206u16
            } else {
                200u16
            }),
    {
        if self.partial {
            206
        } else {
            200
        }
    }

    /// The `Content-Range` header value: `bytes {start}-{end}/{total}`
    /// with `end` inclusive. Needs a nonempty span, since an inclusive
    /// end does not exist for an empty one.
    pub fn content_range_value(&self) -> (s: String)
        requires
            self.wf(),
            self.start < self.end_ex,
        ensures
            s@ == spec_content_range(self.start as nat, self.end_ex as nat, self.total as nat),
    {
        let mut s = String::from_str("bytes ");
        s.append(u64_to_string(self.start).as_str());
        s.append("-");
        s.append(u64_to_string(self.end_ex - 1).as_str());
        s.append("/");
        s.append(u64_to_string(self.total).as_str());
        s
    }
}

/// The served bytes themselves: the requested slice of the file's
/// contents, byte for byte.
pub fn body_slice(data: &[u8], r: &HttpRange) -> (out: Vec<u8>)
    requires
        r.wf(),
        r.total == data@.len(),
    ensures
        out@ == data@.subrange(r.start as int, r.end_ex as int),
{
    let mut out: Vec<u8> = Vec::new();
    let mut i: usize = 0;
    let n = data.len();
    proof {
        assert(r.start <= n && r.end_ex <= n);
    }
    let start: usize = r.start as usize;
    let len: usize = (r.end_ex - r.start) as usize;
    while i < len
        invariant
            0 <= i <= len,
            start == r.start,
            len == r.end_ex - r.start,
            r.wf(),
            r.total == data@.len(),
            start + len <= data@.len() <= usize::MAX,
            out@ =~= data@.subrange(r.start as int, r.start + i),
        decreases len - i,
    {
        out.push(data[start + i]);
        proof {
            assert(out@ =~= data@.subrange(r.start as int, r.start + i + 1));
        }
        i = i + 1;
    }
    proof {
        assert(out@ =~= data@.subrange(r.start as int, r.end_ex as int));
    }
    out
}

/// An open-ended range request `bytes=start-` against a file of `total`
/// bytes with `start < total` is satisfied with exactly the bytes from
/// `start` to the end — `total - start` of them — under the header
/// `Content-Range: bytes {start}-{total-1}/{total}`.
pub proof fn lemma_open_range(start: nat, total: nat)
    requires
        start < total,
    ensures
        spec_resolve(Some((start, None)), total) matches Some(r) && r.0 == start && r.1 == total
            && r.1 - r.0 == total - start && spec_content_range(r.0, r.1, total) == "bytes "@
            + dec_str(start) + "-"@ + dec_str((total - 1) as nat) + "/"@ + dec_str(total),
{
}

/// A bounded range request `bytes=start-end` with `start <= end < total`
/// is satisfied with exactly `end - start + 1` bytes, byte-identical to
/// the file's slice at those offsets.
pub proof fn lemma_bounded_range(data: Seq<u8>, start: nat, end: nat)
    requires
        start <= end < data.len(),
    ensures
        spec_resolve(Some((start, Some(end))), data.len()) matches Some(r) && r.0 == start && r.1
            == end + 1 && r.1 - r.0 == end - start + 1 && (forall|i: int|
            start <= i <= end ==> data.subrange(r.0 as int, r.1 as int)[i - start] == data[i]),
{
}

/// What a request's range header means against a file of `total` bytes,
/// start to finish: no header serves the whole file, a malformed header
/// is refused as a `BadRequest`, a well-formed but unsatisfiable one as
/// a `RangeNotSatisfiable`, and a satisfiable one yields its span.
pub fn resolve_request_range(header: Option<&[u8]>, total: u64) -> (r: Result<
    HttpRange,
    MediaError,
>)
    ensures
        match header {
            None => r matches Ok(hr) && hr.start == 0 && hr.end_ex == total && hr.total == total
                && !hr.partial,
            Some(h) => match spec_parse_range(h@) {
                None => r matches Err(e) && e == MediaError::BadRequest,
                Some(raw) => match spec_resolve(Some(raw), total as nat) {
                    None => r matches Err(e) && e == MediaError::RangeNotSatisfiable,
                    Some(span) => r matches Ok(hr) && hr.start == span.0 && hr.end_ex == span.1
                        && hr.total == total && hr.partial && hr.wf(),
                },
            },
        },
{
    match header {
        None => resolve_range(None, total),
        Some(h) => {
            let raw = parse_range_header(h)?;
            resolve_range(Some(raw), total)
        },
    }
}

/// A range request starting at or past the end of the file, bounded or
/// not, is unsatisfiable.
pub proof fn lemma_range_past_end(start: nat, end: Option<nat>, total: nat)
    requires
        start >= total,
    ensures
        spec_resolve(Some((start, end)), total) is None,
{
}

} // verus!

use stream_backend::range::{
    body_slice, parse_range_header, resolve_range, resolve_request_range, RawRange,
};
use stream_backend::{status_code, MediaError};

#[test]
fn parse_open_ended_range() {
    let r = parse_range_header(b"bytes=0-").unwrap();
    assert_eq!(r.start, 0);
    assert_eq!(r.end, None);
}

#[test]
fn parse_bounded_range() {
    let r = parse_range_header(b"bytes=100-200").unwrap();
    assert_eq!(r.start, 100);
    assert_eq!(r.end, Some(200));
}

#[test]
fn parse_largest_start() {
    let r = parse_range_header(b"bytes=18446744073709551615-").unwrap();
    assert_eq!(r.start, u64::MAX);
    assert_eq!(r.end, None);
}

#[test]
fn parse_rejects_overflowing_number() {
    let r = parse_range_header(b"bytes=18446744073709551616-");
    assert_eq!(r.unwrap_err(), MediaError::BadRequest);
}

#[test]
fn parse_rejects_missing_start() {
    let r = parse_range_header(b"bytes=-5");
    assert_eq!(r.unwrap_err(), MediaError::BadRequest);
}

#[test]
fn parse_rejects_other_unit() {
    let r = parse_range_header(b"octets=0-");
    assert_eq!(r.unwrap_err(), MediaError::BadRequest);
}

#[test]
fn parse_rejects_junk_digits() {
    assert_eq!(parse_range_header(b"bytes=1x2-").unwrap_err(), MediaError::BadRequest);
    assert_eq!(parse_range_header(b"bytes=12").unwrap_err(), MediaError::BadRequest);
    assert_eq!(parse_range_header(b"bytes=3-4x").unwrap_err(), MediaError::BadRequest);
    assert_eq!(parse_range_header(b"").unwrap_err(), MediaError::BadRequest);
}

#[test]
fn open_range_headers() {
    // A file of 10 bytes asked for from offset 2: length 10 - 2, range 2-9/10.
    let hr = resolve_range(Some(RawRange { start: 2, end: None }), 10).unwrap();
    assert_eq!(hr.content_length(), 8);
    assert_eq!(hr.content_range_value(), "bytes 2-9/10");
    assert_eq!(hr.status(), 206);
}

#[test]
fn bounded_range_bytes_match_source() {
    let data: Vec<u8> = (0u8..10).collect();
    let hr = resolve_range(Some(RawRange { start: 3, end: Some(7) }), data.len() as u64).unwrap();
    assert_eq!(hr.content_length(), 5);
    let body = body_slice(&data, &hr);
    assert_eq!(body, vec![3u8, 4, 5, 6, 7]);
    assert_eq!(hr.content_range_value(), "bytes 3-7/10");
}

#[test]
fn single_byte_range() {
    let data = vec![9u8];
    let hr = resolve_range(Some(RawRange { start: 0, end: Some(0) }), 1).unwrap();
    assert_eq!(hr.content_length(), 1);
    assert_eq!(body_slice(&data, &hr), vec![9u8]);
}

#[test]
fn start_past_end_is_unsatisfiable() {
    let e = resolve_range(Some(RawRange { start: 10, end: None }), 10).unwrap_err();
    assert_eq!(e, MediaError::RangeNotSatisfiable);
    assert_eq!(status_code(e), 416);
    let e2 = resolve_range(Some(RawRange { start: 10, end: Some(12) }), 10).unwrap_err();
    assert_eq!(e2, MediaError::RangeNotSatisfiable);
}

#[test]
fn end_past_end_is_unsatisfiable() {
    let e = resolve_range(Some(RawRange { start: 0, end: Some(10) }), 10).unwrap_err();
    assert_eq!(e, MediaError::RangeNotSatisfiable);
}

#[test]
fn inverted_range_is_unsatisfiable() {
    let e = resolve_range(Some(RawRange { start: 5, end: Some(4) }), 10).unwrap_err();
    assert_eq!(e, MediaError::RangeNotSatisfiable);
}

#[test]
fn absent_range_serves_whole_file() {
    let data: Vec<u8> = vec![1, 2, 3, 4, 5];
    let hr = resolve_range(None, 5).unwrap();
    assert_eq!(hr.status(), 200);
    assert_eq!(hr.content_length(), 5);
    assert_eq!(hr.content_range_value(), "bytes 0-4/5");
    assert_eq!(body_slice(&data, &hr), data);
}

#[test]
fn absent_range_on_empty_file() {
    let hr = resolve_range(None, 0).unwrap();
    assert_eq!(hr.status(), 200);
    assert_eq!(hr.content_length(), 0);
    assert_eq!(body_slice(&[], &hr), Vec::<u8>::new());
}

#[test]
fn request_range_pipeline() {
    // The whole header-to-span pipeline: absent, valid, malformed,
    // unsatisfiable — each with its own verdict.
    let hr = resolve_request_range(None, 10).unwrap();
    assert_eq!((hr.start, hr.end_ex, hr.partial), (0, 10, false));
    let hr = resolve_request_range(Some(b"bytes=4-"), 10).unwrap();
    assert_eq!((hr.start, hr.end_ex, hr.partial), (4, 10, true));
    assert_eq!(
        resolve_request_range(Some(b"bytes=four-"), 10).unwrap_err(),
        MediaError::BadRequest
    );
    assert_eq!(
        resolve_request_range(Some(b"bytes=10-"), 10).unwrap_err(),
        MediaError::RangeNotSatisfiable
    );
}

#[test]
fn formats_largest_u64() {
    let s = stream_backend::digits::u64_to_string(u64::MAX);
    assert_eq!(s, "18446744073709551615");
    assert_eq!(stream_backend::digits::u64_to_string(0), "0");
    assert_eq!(stream_backend::digits::u64_to_string(40960), "40960");
}

use stream_backend::dispatch::{
    lookup_query, media_request, parse_media_kind, resolve_lookup, MediaKind, SourceDescriptor,
};
use stream_backend::origin::parse_origin;
use stream_backend::{status_code, MediaError};

#[test]
fn media_kinds_parse() {
    assert_eq!(parse_media_kind("audio").unwrap(), MediaKind::Audio);
    assert_eq!(parse_media_kind("video").unwrap(), MediaKind::Video);
    assert_eq!(parse_media_kind("radio").unwrap(), MediaKind::Radio);
}

#[test]
fn unknown_media_type_is_bad_request() {
    // The kind is refused before any lookup, file or connection is touched.
    let e = parse_media_kind("foo").unwrap_err();
    assert_eq!(e, MediaError::BadRequest);
    assert_eq!(status_code(e), 400);
    assert_eq!(parse_media_kind("").unwrap_err(), MediaError::BadRequest);
    assert_eq!(parse_media_kind("Audio").unwrap_err(), MediaError::BadRequest);
}

#[test]
fn media_request_carries_id() {
    let q = media_request(7, "audio").unwrap();
    assert_eq!(q.id, 7);
    assert_eq!(q.kind, MediaKind::Audio);
    assert_eq!(media_request(7, "foo").unwrap_err(), MediaError::BadRequest);
}

#[test]
fn lookup_queries_are_exact() {
    assert_eq!(lookup_query(MediaKind::Audio), "SELECT path FROM media_audio WHERE id = ?");
    assert_eq!(lookup_query(MediaKind::Video), "SELECT path FROM media_video WHERE id = ?");
    assert_eq!(lookup_query(MediaKind::Radio), "SELECT path FROM media_radio WHERE id = ?");
}

#[test]
fn missing_row_is_not_found() {
    // No row: the answer is 404, decided purely from the lookup's result.
    let e = resolve_lookup(MediaKind::Audio, None).unwrap_err();
    assert_eq!(e, MediaError::NotFound);
    assert_eq!(status_code(e), 404);
}

#[test]
fn rows_resolve_by_kind() {
    match resolve_lookup(MediaKind::Video, Some("/srv/clip.mp4".to_string())).unwrap() {
        SourceDescriptor::LocalFile(p) => assert_eq!(p, "/srv/clip.mp4"),
        _ => panic!("expected a local file"),
    }
    match resolve_lookup(MediaKind::Radio, Some("http://radio.example/live".to_string())).unwrap()
    {
        SourceDescriptor::RemoteUrl(u) => assert_eq!(u, "http://radio.example/live"),
        _ => panic!("expected a remote URL"),
    }
}

#[test]
fn origin_http_defaults() {
    let o = parse_origin("http://example.com/stream").unwrap();
    assert!(!o.tls);
    assert_eq!(o.host, "example.com");
    assert_eq!(o.port, 80);
    assert_eq!(o.path, "/stream");
}

#[test]
fn origin_https_defaults() {
    let o = parse_origin("https://radio.example.com/live").unwrap();
    assert!(o.tls);
    assert_eq!(o.port, 443);
}

#[test]
fn origin_explicit_port_wins() {
    let o = parse_origin("https://radio.example.com:8443/live").unwrap();
    assert!(o.tls);
    assert_eq!(o.port, 8443);
}

#[test]
fn origin_empty_path_becomes_root() {
    let o = parse_origin("http://example.com").unwrap();
    assert_eq!(o.path, "/");
}

#[test]
fn origin_other_scheme_refused() {
    let e = parse_origin("ftp://example.com/x").unwrap_err();
    assert_eq!(e, MediaError::UnsupportedScheme);
    assert_eq!(status_code(e), 400);
}

#[test]
fn origin_garbage_refused() {
    assert_eq!(parse_origin("not a url").unwrap_err(), MediaError::BadRequest);
    assert_eq!(parse_origin("").unwrap_err(), MediaError::BadRequest);
}

#[test]
fn origin_without_host_refused() {
    assert_eq!(parse_origin("data:text/plain,hi").unwrap_err(), MediaError::BadRequest);
}

#[test]
fn error_codes_cover_taxonomy() {
    assert_eq!(status_code(MediaError::NotFound), 404);
    assert_eq!(status_code(MediaError::BadRequest), 400);
    assert_eq!(status_code(MediaError::UnsupportedScheme), 400);
    assert_eq!(status_code(MediaError::RangeNotSatisfiable), 416);
    assert_eq!(status_code(MediaError::UpstreamUnreachable), 502);
    assert_eq!(status_code(MediaError::UpstreamTlsError), 502);
    assert_eq!(status_code(MediaError::StreamIoError), 502);
}

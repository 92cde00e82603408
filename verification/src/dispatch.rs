//! Dispatch decisions: which media kind a request names, which lookup
//! the external collaborator is asked to run, and what its answer means.
//! The lookup itself — one database query per request — is performed by
//! the unverified serving layer; every decision around it is made here,
//! so an invalid media type or a missing row is refused before any
//! filesystem or network access is attempted.

use vstd::prelude::*;
use crate::MediaError;

verus! {

/// The kinds of media the backend serves. Local files hold audio and
/// video; radio is relayed from a remote origin.
#[derive(Clone, Copy, Debug, PartialEq, Eq, Structural)]
pub enum MediaKind {
    Audio,
    Video,
    Radio,
}

/// Which kind a query-string value names: exactly `audio`, `video` or
/// `radio`; anything else is a `BadRequest`.
pub open spec fn kind_of(s: Seq<char>) -> Result<MediaKind, MediaError> {
    if s == "audio"@ {
        Ok(MediaKind::Audio)
    } else if s == "video"@ {
        Ok(MediaKind::Video)
    } else if s == "radio"@ {
        Ok(MediaKind::Radio)
    } else {
        Err(MediaError::BadRequest)
    }
}

/// Validates the client-supplied media type.
pub fn parse_media_kind(s: &str) -> (r: Result<MediaKind, MediaError>)
    ensures
        r == kind_of(s@),
{
    let v = String::from_str(s);
    if v == String::from_str("audio") {
        Ok(MediaKind::Audio)
    } else if v == String::from_str("video") {
        Ok(MediaKind::Video)
    } else if v == String::from_str("radio") {
        Ok(MediaKind::Radio)
    } else {
        Err(MediaError::BadRequest)
    }
}

/// A validated media request: an identifier and a media kind.
#[derive(Debug)]
pub struct MediaRequest {
    pub id: u64,
    pub kind: MediaKind,
}

/// Validates the raw query parameters of a request. The identifier is
/// opaque to the backend (an unknown one simply finds no row); the
/// media type must name a kind.
pub fn media_request(id: u64, media_type: &str) -> (r: Result<MediaRequest, MediaError>)
    ensures
        match kind_of(media_type@) {
            Ok(k) => r matches Ok(q) && q.id == id && q.kind == k,
            Err(e) => r matches Err(e2) && e2 == e,
        },
{
    match parse_media_kind(media_type) {
        Ok(kind) => Ok(MediaRequest { id, kind }),
        Err(e) => Err(e),
    }
}

/// The table suffix of a kind's lookup.
pub open spec fn table_suffix(k: MediaKind) -> Seq<char> {
    match k {
        MediaKind::Audio => "audio"@,
        MediaKind::Video => "video"@,
        MediaKind::Radio => "radio"@,
    }
}

/// The one query the external lookup collaborator runs per request,
/// with the identifier bound as its single parameter. The table name
/// comes from the validated kind, never from client text.
pub open spec fn spec_lookup_query(k: MediaKind) -> Seq<char> {
    "SELECT path FROM media_"@ + table_suffix(k) + " WHERE id = ?"@
}

/// Builds the lookup statement for a kind.
pub fn lookup_query(k: MediaKind) -> (r: String)
    ensures
        r@ == spec_lookup_query(k),
{
    let mut r = String::from_str("SELECT path FROM media_");
    match k {
        MediaKind::Audio => r.append("audio"),
        MediaKind::Video => r.append("video"),
        MediaKind::Radio => r.append("radio"),
    }
    r.append(" WHERE id = ?");
    proof {
        assert(r@ =~= spec_lookup_query(k));
    }
    r
}

/// Where a request's bytes come from: a local file for audio and video,
/// a remote origin for radio.
#[derive(Debug)]
pub enum SourceDescriptor {
    LocalFile(String),
    RemoteUrl(String),
}

/// What the lookup's answer means: no row is a `NotFound` (no file is
/// opened and no connection attempted), and a row's path is a local
/// file or a remote URL according to the kind.
pub fn resolve_lookup(kind: MediaKind, row: Option<String>) -> (r: Result<
    SourceDescriptor,
    MediaError,
>)
    ensures
        row is None ==> (r matches Err(e) && e == MediaError::NotFound),
        row matches Some(p) ==> match kind {
            MediaKind::Audio | MediaKind::Video => r matches Ok(
                SourceDescriptor::LocalFile(q),
            ) && q == p,
            MediaKind::Radio => r matches Ok(SourceDescriptor::RemoteUrl(q)) && q == p,
        },
{
    match row {
        None => Err(MediaError::NotFound),
        Some(p) => match kind {
            MediaKind::Audio | MediaKind::Video => Ok(SourceDescriptor::LocalFile(p)),
            MediaKind::Radio => Ok(SourceDescriptor::RemoteUrl(p)),
        },
    }
}

} // verus!

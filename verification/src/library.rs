//! The library container: the payload of the library-sections endpoint. A
//! library container owns zero or more directory entries; each directory
//! owns zero or more locations. The outer document is the generic envelope
//! around the container.

use vstd::prelude::*;
use crate::error::LoadError;
use crate::raw::{RawElement, children_named, get_children};
use crate::coerce::Timestamp;
use crate::schema::{
    MediaContainer, mc_ok, mc_matches, decode_media_container, oview, oint_u64,
    ots_view, f_text, req_text, f_opt_text, opt_text, f_strict_bool,
    req_strict_bool, f_opt_strict_bool, opt_strict_bool,
    f_opt_tolerant_bool, opt_tolerant_bool, f_unsigned, req_unsigned,
    f_opt_unsigned, opt_unsigned, f_req_ts, req_ts, f_opt_ts, opt_ts,
};

verus! {

/// Whether the uuid crate accepts `s` as a textual UUID; acceptance depends
/// on the characters of `s` alone.
pub uninterp spec fn uuid_accepts(s: Seq<char>) -> bool;

/// Relies on `uuid::Uuid::parse_str`: it decides, from the string alone,
/// whether the string is one of the textual UUID forms the crate knows.
#[verifier::external_body]
fn uuid_parses(s: &str) -> (r: bool)
    ensures
        r == uuid_accepts(s@),
{
    uuid::Uuid::parse_str(s).is_ok()
}

/// A single location of a directory: a numeric id and a filesystem path.
/// A location is owned by its directory and has no independent lifecycle.
#[derive(Debug)]
pub struct DirectoryLocation {
    pub id: u32,
    pub path: String,
}

/// Whether a raw `Location` element resolves against the location schema.
pub open spec fn location_ok(el: RawElement) -> bool {
    &&& f_unsigned(el.attrs@, "id"@, u32::MAX as int) is Some
    &&& f_text(el.attrs@, "path"@) is Some
}

/// Whether `l` is the location that the raw element resolves to.
pub open spec fn location_matches(el: RawElement, l: DirectoryLocation) -> bool {
    &&& f_unsigned(el.attrs@, "id"@, u32::MAX as int) == Some(l.id as int)
    &&& f_text(el.attrs@, "path"@) == Some(l.path@)
}

/// Decodes one `Location` element.
pub fn decode_location(el: &RawElement) -> (r: Result<
    DirectoryLocation,
    LoadError,
>)
    ensures
        match r {
            Ok(l) => location_ok(*el) && location_matches(*el, l),
            Err(e) => !location_ok(*el) && e.is_decode_failure(),
        },
{
    let id = req_unsigned(&el.attrs, "id", u32::MAX as u64)?;
    let path = req_text(&el.attrs, "path")?;
    Ok(DirectoryLocation { id: id as u32, path })
}

/// One library section: a directory entry with its declared attributes and
/// its owned locations.
#[derive(Debug)]
pub struct DirectoryMediaContainer {
    pub key: String,
    pub title: String,
    pub art: String,
    pub allow_sync: bool,
    pub composite: String,
    pub filters: bool,
    pub refreshing: bool,
    pub thumb: String,
    pub media_type: String,
    pub agent: String,
    pub scanner: String,
    pub language: String,
    pub uuid: String,
    pub updated_at: Timestamp,
    pub created_at: Timestamp,
    pub scanned_at: Option<Timestamp>,
    pub content: Option<bool>,
    pub directory: Option<bool>,
    pub content_changed_at: Option<u64>,
    pub hidden: Option<bool>,
    pub location: Vec<DirectoryLocation>,
    pub enable_auto_photo_tags: Option<bool>,
}

/// Whether every element of a raw `Location` collection resolves.
pub open spec fn locations_ok(els: Seq<RawElement>) -> bool {
    forall|i: int| 0 <= i < els.len() ==> location_ok(#[trigger] els[i])
}

/// Whether `ls` is, element for element, what the raw collection resolves
/// to.
pub open spec fn locations_match(
    els: Seq<RawElement>,
    ls: Seq<DirectoryLocation>,
) -> bool {
    &&& ls.len() == els.len()
    &&& forall|i: int|
        0 <= i < els.len() ==> location_matches(#[trigger] els[i], ls[i])
}

/// Whether a raw `Directory` element resolves against the directory schema.
pub open spec fn directory_ok(el: RawElement) -> bool {
    let a = el.attrs@;
    &&& f_text(a, "key"@) is Some
    &&& f_text(a, "title"@) is Some
    &&& f_text(a, "art"@) is Some
    &&& f_strict_bool(a, "allowSync"@) is Some
    &&& f_text(a, "composite"@) is Some
    &&& f_strict_bool(a, "filters"@) is Some
    &&& f_strict_bool(a, "refreshing"@) is Some
    &&& f_text(a, "thumb"@) is Some
    &&& f_text(a, "type"@) is Some
    &&& f_text(a, "agent"@) is Some
    &&& f_text(a, "scanner"@) is Some
    &&& f_text(a, "language"@) is Some
    &&& match f_text(a, "uuid"@) {
        Some(s) => uuid_accepts(s),
        None => false,
    }
    &&& f_req_ts(a, "updatedAt"@) is Some
    &&& f_req_ts(a, "createdAt"@) is Some
    &&& f_opt_ts(a, "scannedAt"@) is Some
    &&& f_opt_strict_bool(a, "content"@) is Some
    &&& f_opt_strict_bool(a, "directory"@) is Some
    &&& f_opt_unsigned(a, "contentChangedAt"@, u64::MAX as int) is Some
    &&& f_opt_tolerant_bool(a, "hidden"@) is Some
    &&& locations_ok(children_named(el.children@, "Location"@))
    &&& f_opt_strict_bool(a, "enableAutoPhotoTags"@) is Some
}

/// Whether `c` is the directory that the raw element resolves to.
pub open spec fn directory_matches(
    el: RawElement,
    c: DirectoryMediaContainer,
) -> bool {
    let a = el.attrs@;
    &&& f_text(a, "key"@) == Some(c.key@)
    &&& f_text(a, "title"@) == Some(c.title@)
    &&& f_text(a, "art"@) == Some(c.art@)
    &&& f_strict_bool(a, "allowSync"@) == Some(c.allow_sync)
    &&& f_text(a, "composite"@) == Some(c.composite@)
    &&& f_strict_bool(a, "filters"@) == Some(c.filters)
    &&& f_strict_bool(a, "refreshing"@) == Some(c.refreshing)
    &&& f_text(a, "thumb"@) == Some(c.thumb@)
    &&& f_text(a, "type"@) == Some(c.media_type@)
    &&& f_text(a, "agent"@) == Some(c.agent@)
    &&& f_text(a, "scanner"@) == Some(c.scanner@)
    &&& f_text(a, "language"@) == Some(c.language@)
    &&& f_text(a, "uuid"@) == Some(c.uuid@) && uuid_accepts(c.uuid@)
    &&& f_req_ts(a, "updatedAt"@) == Some(c.updated_at.secs as int)
    &&& f_req_ts(a, "createdAt"@) == Some(c.created_at.secs as int)
    &&& f_opt_ts(a, "scannedAt"@) == Some(ots_view(c.scanned_at))
    &&& f_opt_strict_bool(a, "content"@) == Some(c.content)
    &&& f_opt_strict_bool(a, "directory"@) == Some(c.directory)
    &&& f_opt_unsigned(a, "contentChangedAt"@, u64::MAX as int) == Some(
        oint_u64(c.content_changed_at),
    )
    &&& f_opt_tolerant_bool(a, "hidden"@) == Some(c.hidden)
    &&& locations_match(children_named(el.children@, "Location"@), c.location@)
    &&& f_opt_strict_bool(a, "enableAutoPhotoTags"@) == Some(
        c.enable_auto_photo_tags,
    )
}

/// Decodes one `Directory` element, locations included. An omitted
/// `Location` collection is the empty list: the schema declares that
/// default.
pub fn decode_directory(el: &RawElement) -> (r: Result<
    DirectoryMediaContainer,
    LoadError,
>)
    ensures
        match r {
            Ok(c) => directory_ok(*el) && directory_matches(*el, c),
            Err(e) => !directory_ok(*el) && e.is_decode_failure(),
        },
{
    let a = &el.attrs;
    let key = req_text(a, "key")?;
    let title = req_text(a, "title")?;
    let art = req_text(a, "art")?;
    let allow_sync = req_strict_bool(a, "allowSync")?;
    let composite = req_text(a, "composite")?;
    let filters = req_strict_bool(a, "filters")?;
    let refreshing = req_strict_bool(a, "refreshing")?;
    let thumb = req_text(a, "thumb")?;
    let media_type = req_text(a, "type")?;
    let agent = req_text(a, "agent")?;
    let scanner = req_text(a, "scanner")?;
    let language = req_text(a, "language")?;
    let uuid = req_text(a, "uuid")?;
    if !uuid_parses(uuid.as_str()) {
        return Err(
            LoadError::SchemaMismatch {
                field: String::from_str("uuid"),
                reason: String::from_str("not a textual UUID"),
            },
        );
    }
    let updated_at = req_ts(a, "updatedAt")?;
    let created_at = req_ts(a, "createdAt")?;
    let scanned_at = opt_ts(a, "scannedAt")?;
    let content = opt_strict_bool(a, "content")?;
    let directory = opt_strict_bool(a, "directory")?;
    let content_changed_at = opt_unsigned(a, "contentChangedAt", u64::MAX)?;
    let hidden = opt_tolerant_bool(a, "hidden")?;
    let enable_auto_photo_tags = opt_strict_bool(a, "enableAutoPhotoTags")?;

    let loc_els = get_children(el, "Location");
    let ghost named = children_named(el.children@, "Location"@);
    let mut location: Vec<DirectoryLocation> = Vec::new();
    let mut i: usize = 0;
    while i < loc_els.len()
        invariant
            named == children_named(el.children@, "Location"@),
            loc_els@.map_values(|e: &RawElement| *e) == named,
            i <= named.len(),
            location@.len() == i,
            forall|j: int| 0 <= j < i ==> location_ok(#[trigger] named[j]),
            forall|j: int|
                0 <= j < i ==> location_matches(#[trigger] named[j], location@[j]),
        decreases loc_els@.len() - i,
    {
        proof {
            assert(loc_els@.map_values(|e: &RawElement| *e)[i as int]
                == named[i as int]);
        }
        match decode_location(loc_els[i]) {
            Ok(l) => {
                location.push(l);
            },
            Err(e) => {
                proof {
                    assert(!location_ok(named[i as int]));
                    assert(!locations_ok(named));
                }
                return Err(e);
            },
        }
        i += 1;
    }
    Ok(
        DirectoryMediaContainer {
            key,
            title,
            art,
            allow_sync,
            composite,
            filters,
            refreshing,
            thumb,
            media_type,
            agent,
            scanner,
            language,
            uuid,
            updated_at,
            created_at,
            scanned_at,
            content,
            directory,
            content_changed_at,
            hidden,
            location,
            enable_auto_photo_tags,
        },
    )
}

/// The library container: the declared attributes of the sections listing,
/// its directory entries, and the shared base metadata.
#[derive(Debug)]
pub struct LibraryMediaContainer {
    pub allow_sync: bool,
    pub art: Option<String>,
    pub content: Option<String>,
    pub identifier: String,
    pub media_tag_prefix: String,
    pub media_tag_version: u64,
    pub title1: Option<String>,
    pub title2: Option<String>,
    pub directory: Option<Vec<DirectoryMediaContainer>>,
    pub mixed_parents: Option<bool>,
    pub media_container: MediaContainer,
}

/// Whether every element of a raw `Directory` collection resolves.
pub open spec fn directories_ok(els: Seq<RawElement>) -> bool {
    forall|i: int| 0 <= i < els.len() ==> directory_ok(#[trigger] els[i])
}

/// Whether the decoded directory list is what the raw collection resolves
/// to: an omitted collection is "no value", a present one matches element
/// for element.
pub open spec fn directories_match(
    els: Seq<RawElement>,
    od: Option<Vec<DirectoryMediaContainer>>,
) -> bool {
    match od {
        None => els.len() == 0,
        Some(v) => {
            &&& els.len() > 0
            &&& v@.len() == els.len()
            &&& forall|i: int|
                0 <= i < els.len() ==> directory_matches(#[trigger] els[i], v@[i])
        },
    }
}

/// Whether a raw envelope-level `MediaContainer` element resolves against
/// the library schema.
pub open spec fn library_ok(el: RawElement) -> bool {
    let a = el.attrs@;
    &&& f_strict_bool(a, "allowSync"@) is Some
    &&& f_opt_text(a, "art"@) is Some
    &&& f_opt_text(a, "content"@) is Some
    &&& f_text(a, "identifier"@) is Some
    &&& f_text(a, "mediaTagPrefix"@) is Some
    &&& f_unsigned(a, "mediaTagVersion"@, u64::MAX as int) is Some
    &&& f_opt_text(a, "title1"@) is Some
    &&& f_opt_text(a, "title2"@) is Some
    &&& directories_ok(children_named(el.children@, "Directory"@))
    &&& f_opt_strict_bool(a, "mixedParents"@) is Some
    &&& mc_ok(a)
}

/// Whether `c` is the library container that the raw element resolves to.
pub open spec fn library_matches(el: RawElement, c: LibraryMediaContainer) -> bool {
    let a = el.attrs@;
    &&& f_strict_bool(a, "allowSync"@) == Some(c.allow_sync)
    &&& f_opt_text(a, "art"@) == Some(oview(c.art))
    &&& f_opt_text(a, "content"@) == Some(oview(c.content))
    &&& f_text(a, "identifier"@) == Some(c.identifier@)
    &&& f_text(a, "mediaTagPrefix"@) == Some(c.media_tag_prefix@)
    &&& f_unsigned(a, "mediaTagVersion"@, u64::MAX as int) == Some(
        c.media_tag_version as int,
    )
    &&& f_opt_text(a, "title1"@) == Some(oview(c.title1))
    &&& f_opt_text(a, "title2"@) == Some(oview(c.title2))
    &&& directories_match(children_named(el.children@, "Directory"@), c.directory)
    &&& f_opt_strict_bool(a, "mixedParents"@) == Some(c.mixed_parents)
    &&& mc_matches(a, c.media_container)
}

/// Decodes the library container from its envelope-level element.
pub fn decode_library(el: &RawElement) -> (r: Result<
    LibraryMediaContainer,
    LoadError,
>)
    ensures
        match r {
            Ok(c) => library_ok(*el) && library_matches(*el, c),
            Err(e) => !library_ok(*el) && e.is_decode_failure(),
        },
{
    let a = &el.attrs;
    let allow_sync = req_strict_bool(a, "allowSync")?;
    let art = opt_text(a, "art")?;
    let content = opt_text(a, "content")?;
    let identifier = req_text(a, "identifier")?;
    let media_tag_prefix = req_text(a, "mediaTagPrefix")?;
    let media_tag_version = req_unsigned(a, "mediaTagVersion", u64::MAX)?;
    let title1 = opt_text(a, "title1")?;
    let title2 = opt_text(a, "title2")?;
    let mixed_parents = opt_strict_bool(a, "mixedParents")?;
    let media_container = decode_media_container(a)?;

    let dir_els = get_children(el, "Directory");
    let ghost named = children_named(el.children@, "Directory"@);
    let mut dirs: Vec<DirectoryMediaContainer> = Vec::new();
    let mut i: usize = 0;
    while i < dir_els.len()
        invariant
            named == children_named(el.children@, "Directory"@),
            dir_els@.map_values(|e: &RawElement| *e) == named,
            i <= named.len(),
            dirs@.len() == i,
            forall|j: int| 0 <= j < i ==> directory_ok(#[trigger] named[j]),
            forall|j: int|
                0 <= j < i ==> directory_matches(#[trigger] named[j], dirs@[j]),
        decreases dir_els@.len() - i,
    {
        proof {
            assert(dir_els@.map_values(|e: &RawElement| *e)[i as int]
                == named[i as int]);
        }
        match decode_directory(dir_els[i]) {
            Ok(d) => {
                dirs.push(d);
            },
            Err(e) => {
                proof {
                    assert(!directory_ok(named[i as int]));
                    assert(!directories_ok(named));
                }
                return Err(e);
            },
        }
        i += 1;
    }
    let directory: Option<Vec<DirectoryMediaContainer>> = if dirs.len() == 0 {
        None
    } else {
        Some(dirs)
    };
    Ok(
        LibraryMediaContainer {
            allow_sync,
            art,
            content,
            identifier,
            media_tag_prefix,
            media_tag_version,
            title1,
            title2,
            directory,
            mixed_parents,
            media_container,
        },
    )
}

impl LibraryMediaContainer {
    /// A read-only projection of the directory entries: a container that
    /// reports none yields the empty sequence, never an error.
    pub fn get_directories(&self) -> (r: Vec<&DirectoryMediaContainer>)
        ensures
            match self.directory {
                Some(v) => r@.map_values(|d: &DirectoryMediaContainer| *d) == v@,
                None => r@.len() == 0,
            },
    {
        let mut r: Vec<&DirectoryMediaContainer> = Vec::new();
        match &self.directory {
            None => r,
            Some(v) => {
                let mut i: usize = 0;
                while i < v.len()
                    invariant
                        i <= v@.len(),
                        r@.map_values(|d: &DirectoryMediaContainer| *d) == v@.take(
                            i as int,
                        ),
                    decreases v@.len() - i,
                {
                    r.push(&v[i]);
                    proof {
                        assert(v@.take(i as int).push(v@[i as int]) =~= v@.take(
                            i + 1,
                        ));
                        assert(r@.map_values(|d: &DirectoryMediaContainer| *d)
                            =~= v@.take(i + 1));
                    }
                    i += 1;
                }
                proof {
                    assert(v@.take(v@.len() as int) =~= v@);
                }
                r
            },
        }
    }
}

/// The outer document: the envelope whose single wrapping field holds the
/// library container.
#[derive(Debug)]
pub struct LibraryMediaContainerOuter {
    pub media_container: LibraryMediaContainer,
}

impl LibraryMediaContainerOuter {
    /// Unwraps the envelope. Unwrapping is total: once the outer document
    /// exists, the inner container it holds is returned by value, always.
    pub fn unwrap(self) -> (r: LibraryMediaContainer)
        ensures
            r == self.media_container,
    {
        self.media_container
    }
}

impl From<LibraryMediaContainerOuter> for LibraryMediaContainer {
    fn from(mc: LibraryMediaContainerOuter) -> (r: Self) {
        mc.media_container
    }
}

impl vstd::std_specs::convert::FromSpecImpl<LibraryMediaContainerOuter>
    for LibraryMediaContainer {
    open spec fn obeys_from_spec() -> bool {
        true
    }

    open spec fn from_spec(mc: LibraryMediaContainerOuter) -> Self {
        mc.media_container
    }
}

/// Whether a raw document is a well-formed envelope: a single top-level
/// element whose name is the wrapping field.
pub open spec fn envelope_ok(doc: RawElement) -> bool {
    doc.name@ == "MediaContainer"@
}

/// Decodes a whole library document: envelope first, container within.
pub fn decode_library_document(doc: &RawElement) -> (r: Result<
    LibraryMediaContainerOuter,
    LoadError,
>)
    ensures
        match r {
            Ok(o) => envelope_ok(*doc) && library_ok(*doc) && library_matches(
                *doc,
                o.media_container,
            ),
            Err(e) => !(envelope_ok(*doc) && library_ok(*doc))
                && e.is_decode_failure(),
        },
{
    if !crate::text::str_eq(doc.name.as_str(), "MediaContainer") {
        return Err(
            LoadError::SchemaMismatch {
                field: String::from_str("MediaContainer"),
                reason: String::from_str("the envelope element is absent"),
            },
        );
    }
    let media_container = decode_library(doc)?;
    Ok(LibraryMediaContainerOuter { media_container })
}

} // verus!

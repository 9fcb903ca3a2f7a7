use plex_norm::devices::{attach_tokens, decode_devices};
use plex_norm::error::LoadError;
use plex_norm::library::{decode_directory, decode_library_document};
use plex_norm::loader::{load, ContainerVariant, DocumentSchema};
use plex_norm::raw::{RawAttr, RawElement, RawValue};
use plex_norm::server::decode_server;

fn attr(name: &str, value: &str) -> RawAttr {
    RawAttr {
        name: name.to_string(),
        value: RawValue::Text(value.to_string()),
    }
}

fn num_attr(name: &str, value: i64) -> RawAttr {
    RawAttr {
        name: name.to_string(),
        value: RawValue::Num(value),
    }
}

fn server_doc() -> RawElement {
    let mut attrs = vec![attr("machineIdentifier", "abc-123")];
    for name in [
        "allowCameraUpload",
        "allowChannelAccess",
        "allowSharing",
        "allowSync",
        "backgroundProcessing",
        "companionProxy",
        "eventStream",
        "hubSearch",
        "itemClusters",
        "photoAutoTag",
        "pluginHost",
        "requestParametersInCookie",
        "sync",
        "transcoderAudio",
        "transcoderLyrics",
        "transcoderPhoto",
        "transcoderSubtitles",
        "transcoderVideo",
        "updater",
        "voiceSearch",
    ] {
        attrs.push(attr(name, "1"));
    }
    attrs.push(attr("livetv", "7"));
    attrs.push(attr("readOnlyLibraries", "0"));
    attrs.push(attr("streamingBrainVersion", "2"));
    attrs.push(attr("transcoderActiveVideoSessions", "0"));
    attrs.push(attr("platform", "Linux"));
    attrs.push(attr("platformVersion", "5.10"));
    attrs.push(attr("version", "1.14.1.5488-cc260c476"));
    attrs.push(attr("multiuser", "1"));
    attrs.push(attr("diagnostics", "logs,databases"));
    attrs.push(attr("transcoderVideoQualities", "0,1,2"));
    attrs.push(num_attr("updatedAt", 1_700_000_000));
    RawElement {
        name: "MediaContainer".to_string(),
        attrs,
        children: vec![RawElement {
            name: "Directory".to_string(),
            attrs: vec![attr("count", "1"), attr("key", "actions"), attr("title", "actions")],
            children: vec![],
        }],
    }
}

#[test]
fn server_decode_round_trips_declared_attributes() {
    let doc = server_doc();
    let c = decode_server(&doc).unwrap();
    assert_eq!(c.machine_identifier, "abc-123");
    assert_eq!(c.allow_sync, true);
    assert_eq!(c.allow_media_deletion, false);
    assert_eq!(c.allow_tuners, false);
    assert_eq!(c.country_code, "");
    assert_eq!(c.livetv, 7);
    assert_eq!(c.multiuser, Some(true));
    assert_eq!(c.my_plex, None);
    assert_eq!(
        c.diagnostics,
        Some(vec!["logs".to_string(), "databases".to_string()])
    );
    assert_eq!(c.owner_features, None);
    assert_eq!(c.transcoder_video_qualities, Some(vec![0u8, 1, 2]));
    assert_eq!(c.transcoder_video_bitrates, None);
    assert_eq!(c.updated_at.map(|t| t.secs), Some(1_700_000_000));
    assert_eq!(c.get_version().major, 1);
    assert_eq!(c.get_version().minor, 14);
    assert_eq!(c.get_version().patch, 1);
    assert_eq!(c.get_version().build, "5488-cc260c476");
    assert_eq!(c.directories.len(), 1);
    assert_eq!(c.directories[0].key, "actions");
    assert_eq!(c.directories[0].count, Some(1));
    assert!(c.get_media_container().size.is_none());
}

#[test]
fn server_decode_twice_yields_equal_records() {
    let doc = server_doc();
    let c1 = decode_server(&doc).unwrap();
    let c2 = decode_server(&doc).unwrap();
    assert_eq!(c1.machine_identifier, c2.machine_identifier);
    assert_eq!(c1.allow_sync, c2.allow_sync);
    assert_eq!(c1.multiuser, c2.multiuser);
    assert_eq!(c1.diagnostics, c2.diagnostics);
    assert_eq!(c1.updated_at, c2.updated_at);
    assert_eq!(c1.directories.len(), c2.directories.len());
    assert_eq!(c1.directories[0].key, c2.directories[0].key);
    assert_eq!(c1.version.major, c2.version.major);
    assert_eq!(c1.version.build, c2.version.build);
}

#[test]
fn server_tolerates_mixed_boolean_encodings() {
    let mut doc = server_doc();
    doc.attrs.retain(|a| a.name != "allowSync" && a.name != "hubSearch");
    doc.attrs.push(attr("allowSync", "TRUE"));
    doc.attrs.push(RawAttr {
        name: "hubSearch".to_string(),
        value: RawValue::Flag(false),
    });
    let c = decode_server(&doc).unwrap();
    assert_eq!(c.allow_sync, true);
    assert_eq!(c.hub_search, false);
}

#[test]
fn server_malformed_boolean_is_invalid_boolean() {
    let mut doc = server_doc();
    doc.attrs.retain(|a| a.name != "allowSync");
    doc.attrs.push(attr("allowSync", "maybe"));
    assert!(matches!(
        decode_server(&doc),
        Err(LoadError::InvalidBoolean)
    ));
}

#[test]
fn server_without_directory_children_fails() {
    let mut doc = server_doc();
    doc.children.clear();
    match decode_server(&doc) {
        Err(LoadError::SchemaMismatch { field, .. }) => {
            assert_eq!(field, "Directory")
        }
        _ => panic!("an absent required collection must be rejected"),
    }
}

fn directory_el(uuid: &str) -> RawElement {
    RawElement {
        name: "Directory".to_string(),
        attrs: vec![
            attr("key", "5"),
            attr("title", "Movies"),
            attr("art", "/:/resources/movie-fanart.jpg"),
            attr("allowSync", "true"),
            attr("composite", "/library/sections/5/composite/1"),
            attr("filters", "true"),
            attr("refreshing", "false"),
            attr("thumb", "/:/resources/movie.png"),
            attr("type", "movie"),
            attr("agent", "tv.plex.agents.movie"),
            attr("scanner", "Plex Movie"),
            attr("language", "en-US"),
            attr("uuid", uuid),
            attr("updatedAt", "1556281940"),
            attr("createdAt", "1556281057"),
            attr("scannedAt", "1556281940"),
            attr("hidden", "0"),
        ],
        children: vec![RawElement {
            name: "Location".to_string(),
            attrs: vec![attr("id", "5"), attr("path", "/data/movies")],
            children: vec![],
        }],
    }
}

fn library_doc() -> RawElement {
    RawElement {
        name: "MediaContainer".to_string(),
        attrs: vec![
            attr("allowSync", "false"),
            attr("identifier", "com.plexapp.plugins.library"),
            attr("mediaTagPrefix", "/system/bundle/media/flags/"),
            attr("mediaTagVersion", "1556241232"),
            attr("title1", "Plex Library"),
            attr("size", "1"),
        ],
        children: vec![directory_el("ef947a53-2405-4bc8-a04d-84fbf73872d9")],
    }
}

#[test]
fn directory_decodes_with_locations_and_coercions() {
    let el = directory_el("ef947a53-2405-4bc8-a04d-84fbf73872d9");
    let d = decode_directory(&el).unwrap();
    assert_eq!(d.key, "5");
    assert_eq!(d.media_type, "movie");
    assert_eq!(d.uuid, "ef947a53-2405-4bc8-a04d-84fbf73872d9");
    assert_eq!(d.updated_at.secs, 1556281940);
    assert_eq!(d.scanned_at.map(|t| t.secs), Some(1556281940));
    assert_eq!(d.hidden, Some(false));
    assert_eq!(d.content, None);
    assert_eq!(d.location.len(), 1);
    assert_eq!(d.location[0].id, 5);
    assert_eq!(d.location[0].path, "/data/movies");
    assert_eq!(d.enable_auto_photo_tags, None);
}

#[test]
fn directory_with_invalid_uuid_fails() {
    let el = directory_el("not-a-uuid");
    match decode_directory(&el) {
        Err(LoadError::SchemaMismatch { field, .. }) => assert_eq!(field, "uuid"),
        _ => panic!("an invalid uuid must be rejected"),
    }
}

#[test]
fn directory_strict_bool_rejects_numeric_form() {
    let mut el = directory_el("ef947a53-2405-4bc8-a04d-84fbf73872d9");
    for a in el.attrs.iter_mut() {
        if a.name == "filters" {
            a.value = RawValue::Text("1".to_string());
        }
    }
    match decode_directory(&el) {
        Err(LoadError::SchemaMismatch { field, .. }) => {
            assert_eq!(field, "filters")
        }
        _ => panic!("a strictly typed boolean must reject the numeric form"),
    }
}

#[test]
fn envelope_unwrap_returns_exactly_the_inner_container() {
    let doc = library_doc();
    let outer = decode_library_document(&doc).unwrap();
    let expected_identifier = outer.media_container.identifier.clone();
    let inner = outer.unwrap();
    assert_eq!(inner.identifier, expected_identifier);
    assert_eq!(inner.media_tag_version, 1556241232);
    assert_eq!(inner.title1.as_deref(), Some("Plex Library"));
    assert_eq!(inner.title2, None);
    let dirs = inner.directory.expect("one directory child was given");
    assert_eq!(dirs.len(), 1);
    assert_eq!(dirs[0].title, "Movies");
    assert_eq!(inner.media_container.size, Some(1));
}

#[test]
fn envelope_with_wrong_root_name_fails() {
    let mut doc = library_doc();
    doc.name = "Container".to_string();
    match decode_library_document(&doc) {
        Err(LoadError::SchemaMismatch { field, .. }) => {
            assert_eq!(field, "MediaContainer")
        }
        _ => panic!("a document without the envelope element must be rejected"),
    }
}

fn devices_doc() -> RawElement {
    RawElement {
        name: "MediaContainer".to_string(),
        attrs: vec![attr("size", "2")],
        children: vec![
            RawElement {
                name: "Device".to_string(),
                attrs: vec![
                    attr("clientIdentifier", "dev-1"),
                    attr("name", "Living Room"),
                    attr("product", "Plex Media Server"),
                    attr("productVersion", "1.14.1.5488-cc260c476"),
                ],
                children: vec![RawElement {
                    name: "Connection".to_string(),
                    attrs: vec![attr("uri", "https://203.0.113.7:32400")],
                    children: vec![],
                }],
            },
            RawElement {
                name: "Device".to_string(),
                attrs: vec![
                    attr("clientIdentifier", "dev-2"),
                    attr("name", "Phone"),
                ],
                children: vec![],
            },
        ],
    }
}

#[test]
fn device_list_decode_then_attachment_authenticates_every_device() {
    let doc = devices_doc();
    let mc = decode_devices(&doc).unwrap();
    let entries = mc.get_devices();
    assert_eq!(entries.len(), 2);
    let devices = attach_tokens(entries, "SECRET-REDACTED");
    assert_eq!(devices.len(), 2);
    for d in &devices {
        assert_eq!(d.auth_token, "SECRET-REDACTED");
    }
    assert_eq!(devices[0].client_identifier, "dev-1");
    assert_eq!(devices[0].connections, vec!["https://203.0.113.7:32400"]);
    assert_eq!(devices[1].name, "Phone");
    assert_eq!(devices[1].connections.len(), 0);
}

#[test]
fn empty_token_still_counts_as_attached() {
    let doc = devices_doc();
    let mc = decode_devices(&doc).unwrap();
    let devices = attach_tokens(mc.get_devices(), "");
    assert_eq!(devices.len(), 2);
    for d in &devices {
        assert_eq!(d.auth_token, "");
    }
}

#[test]
fn load_returns_the_requested_variant() {
    match load(&server_doc(), DocumentSchema::ServerInfo).unwrap() {
        ContainerVariant::ServerInfo(c) => {
            assert_eq!(c.machine_identifier, "abc-123")
        }
        _ => panic!("the server schema must yield the server variant"),
    }
    match load(&library_doc(), DocumentSchema::LibrarySections).unwrap() {
        ContainerVariant::LibrarySections(c) => {
            assert_eq!(c.identifier, "com.plexapp.plugins.library")
        }
        _ => panic!("the library schema must yield the library variant"),
    }
    match load(&devices_doc(), DocumentSchema::DeviceList).unwrap() {
        ContainerVariant::DeviceList(c) => {
            assert_eq!(c.devices.len(), 2)
        }
        _ => panic!("the device schema must yield the device variant"),
    }
}

#[test]
fn load_missing_identifier_names_the_field() {
    let mut doc = library_doc();
    doc.attrs.retain(|a| a.name != "identifier");
    match load(&doc, DocumentSchema::LibrarySections) {
        Err(LoadError::SchemaMismatch { field, .. }) => {
            assert_eq!(field, "identifier")
        }
        _ => panic!("a missing required field must name the field"),
    }
}

#[test]
fn load_surfaces_the_service_error_envelope() {
    let doc = RawElement {
        name: "Response".to_string(),
        attrs: vec![num_attr("code", 401), attr("message", "Unauthorized")],
        children: vec![],
    };
    match load(&doc, DocumentSchema::ServerInfo) {
        Err(LoadError::ServiceError { code, message }) => {
            assert_eq!(code, 401);
            assert_eq!(message, "Unauthorized");
        }
        _ => panic!("a well-formed error envelope must surface verbatim"),
    }
}

#[test]
fn directory_projection_is_empty_when_none_were_reported() {
    let mut doc = library_doc();
    doc.children.clear();
    let inner = decode_library_document(&doc).unwrap().unwrap();
    assert!(inner.directory.is_none());
    assert_eq!(inner.get_directories().len(), 0);
    let full = decode_library_document(&library_doc()).unwrap().unwrap();
    let dirs = full.get_directories();
    assert_eq!(dirs.len(), 1);
    assert_eq!(dirs[0].title, "Movies");
}

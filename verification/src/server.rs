//! The server-info container: the payload of the server's root endpoint,
//! describing its capabilities. Most boolean capabilities use the tolerant
//! coercion rules; several older-server fields are optional so that "the
//! server says false" stays distinct from "the server did not report this".

use vstd::prelude::*;
use crate::error::LoadError;
use crate::raw::{RawElement, children_named, get_children};
use crate::coerce::Timestamp;
use crate::text::{split_on, dec_value};
use crate::version::{Version, plex_version_ok, parse_plex_version};
use crate::schema::{
    MediaContainer, mc_ok, mc_matches, decode_media_container, oview, oint_u64,
    ots_view, olist_text_view, f_text, req_text, f_opt_text, opt_text,
    f_text_default, def_text, f_tolerant_bool, req_tolerant_bool,
    f_tolerant_bool_default, def_tolerant_bool, f_opt_tolerant_bool,
    opt_tolerant_bool, f_unsigned, req_unsigned, f_opt_unsigned, opt_unsigned,
    f_opt_list_text, opt_list_text, f_opt_list_num, opt_list_num, f_opt_ts,
    opt_ts, to_u16_list, to_u8_list,
};

verus! {

/// The numeric view of an optional 8-bit value.
pub open spec fn oint_u8(x: Option<u8>) -> Option<int> {
    match x {
        Some(n) => Some(n as int),
        None => None,
    }
}

/// The numeric view of an optional 16-bit value.
pub open spec fn oint_u16(x: Option<u16>) -> Option<int> {
    match x {
        Some(n) => Some(n as int),
        None => None,
    }
}

/// The numeric views of an optional list of 16-bit values.
pub open spec fn olist16_view(x: Option<Vec<u16>>) -> Option<Seq<int>> {
    match x {
        Some(v) => Some(v@.map_values(|n: u16| n as int)),
        None => None,
    }
}

/// The numeric views of an optional list of 8-bit values.
pub open spec fn olist8_view(x: Option<Vec<u8>>) -> Option<Seq<int>> {
    match x {
        Some(v) => Some(v@.map_values(|n: u8| n as int)),
        None => None,
    }
}

/// One directory entry of the server's root listing: an action key, its
/// display title, and an optional item count.
#[derive(Debug)]
pub struct Directory {
    pub count: Option<u64>,
    pub key: String,
    pub title: String,
}

/// Whether a raw server `Directory` element resolves.
pub open spec fn server_directory_ok(el: RawElement) -> bool {
    &&& f_opt_unsigned(el.attrs@, "count"@, u64::MAX as int) is Some
    &&& f_text(el.attrs@, "key"@) is Some
    &&& f_text(el.attrs@, "title"@) is Some
}

/// Whether `d` is the directory that the raw element resolves to.
pub open spec fn server_directory_matches(el: RawElement, d: Directory) -> bool {
    &&& f_opt_unsigned(el.attrs@, "count"@, u64::MAX as int) == Some(
        oint_u64(d.count),
    )
    &&& f_text(el.attrs@, "key"@) == Some(d.key@)
    &&& f_text(el.attrs@, "title"@) == Some(d.title@)
}

/// Decodes one server `Directory` element.
pub fn decode_server_directory(el: &RawElement) -> (r: Result<
    Directory,
    LoadError,
>)
    ensures
        match r {
            Ok(d) => server_directory_ok(*el) && server_directory_matches(*el, d),
            Err(e) => !server_directory_ok(*el) && e.is_decode_failure(),
        },
{
    let count = opt_unsigned(&el.attrs, "count", u64::MAX)?;
    let key = req_text(&el.attrs, "key")?;
    let title = req_text(&el.attrs, "title")?;
    Ok(Directory { count, key, title })
}

/// Whether every element of the raw `Directory` collection resolves, and
/// the collection is present at all: the schema declares no default for it.
pub open spec fn server_directories_ok(els: Seq<RawElement>) -> bool {
    &&& els.len() > 0
    &&& forall|i: int| 0 <= i < els.len() ==> server_directory_ok(#[trigger] els[i])
}

/// Whether `ds` is, element for element, what the raw collection resolves
/// to.
pub open spec fn server_directories_match(
    els: Seq<RawElement>,
    ds: Seq<Directory>,
) -> bool {
    &&& ds.len() == els.len()
    &&& forall|i: int|
        0 <= i < els.len() ==> server_directory_matches(#[trigger] els[i], ds[i])
}

/// The server-info container: the server's declared capabilities, its
/// directory listing, its version, and the shared base metadata.
#[derive(Debug)]
pub struct ServerMediaContainer {
    pub machine_identifier: String,
    pub directories: Vec<Directory>,
    pub allow_camera_upload: bool,
    pub allow_channel_access: bool,
    pub allow_media_deletion: bool,
    pub allow_sharing: bool,
    pub allow_sync: bool,
    pub allow_tuners: bool,
    pub background_processing: bool,
    pub certificate: bool,
    pub companion_proxy: bool,
    pub country_code: String,
    pub livetv: u8,
    pub diagnostics: Option<Vec<String>>,
    pub media_providers: Option<bool>,
    pub multiuser: Option<bool>,
    pub my_plex: Option<bool>,
    pub my_plex_subscription: Option<bool>,
    pub my_plex_mapping_state: Option<String>,
    pub my_plex_signin_state: Option<String>,
    pub my_plex_username: Option<String>,
    pub owner_features: Option<Vec<String>>,
    pub event_stream: bool,
    pub hub_search: bool,
    pub item_clusters: bool,
    pub photo_auto_tag: bool,
    pub platform: String,
    pub platform_version: String,
    pub plugin_host: bool,
    pub request_parameters_in_cookie: bool,
    pub read_only_libraries: u16,
    pub streaming_brain_abr_version: Option<u8>,
    pub streaming_brain_version: u8,
    pub sync: bool,
    pub transcoder_active_video_sessions: u8,
    pub transcoder_audio: bool,
    pub transcoder_lyrics: bool,
    pub transcoder_photo: bool,
    pub transcoder_subtitles: bool,
    pub transcoder_video: bool,
    pub updater: bool,
    pub voice_search: bool,
    pub transcoder_video_bitrates: Option<Vec<u16>>,
    pub transcoder_video_qualities: Option<Vec<u8>>,
    pub transcoder_video_resolutions: Option<Vec<u16>>,
    pub updated_at: Option<Timestamp>,
    pub max_upload_bitrate: Option<u16>,
    pub max_upload_bitrate_reason: Option<String>,
    pub max_upload_bitrate_reason_message: Option<String>,
    pub push_notifications: Option<bool>,
    pub version: Version,
    pub media_container: MediaContainer,
}

/// Whether a raw envelope-level element resolves against the server-info
/// schema.
pub open spec fn server_ok(el: RawElement) -> bool {
    let a = el.attrs@;
    &&& f_text(a, "machineIdentifier"@) is Some
    &&& f_tolerant_bool(a, "allowCameraUpload"@) is Some
    &&& f_tolerant_bool(a, "allowChannelAccess"@) is Some
    &&& f_tolerant_bool_default(a, "allowMediaDeletion"@) is Some
    &&& f_tolerant_bool(a, "allowSharing"@) is Some
    &&& f_tolerant_bool(a, "allowSync"@) is Some
    &&& f_tolerant_bool_default(a, "allowTuners"@) is Some
    &&& f_tolerant_bool(a, "backgroundProcessing"@) is Some
    &&& f_tolerant_bool_default(a, "certificate"@) is Some
    &&& f_tolerant_bool(a, "companionProxy"@) is Some
    &&& f_text_default(a, "countryCode"@) is Some
    &&& f_unsigned(a, "livetv"@, u8::MAX as int) is Some
    &&& f_opt_list_text(a, "diagnostics"@) is Some
    &&& f_opt_tolerant_bool(a, "mediaProviders"@) is Some
    &&& f_opt_tolerant_bool(a, "multiuser"@) is Some
    &&& f_opt_tolerant_bool(a, "myPlex"@) is Some
    &&& f_opt_tolerant_bool(a, "myPlexSubscription"@) is Some
    &&& f_opt_text(a, "myPlexMappingState"@) is Some
    &&& f_opt_text(a, "myPlexSigninState"@) is Some
    &&& f_opt_text(a, "myPlexUsername"@) is Some
    &&& f_opt_list_text(a, "ownerFeatures"@) is Some
    &&& f_tolerant_bool(a, "eventStream"@) is Some
    &&& f_tolerant_bool(a, "hubSearch"@) is Some
    &&& f_tolerant_bool(a, "itemClusters"@) is Some
    &&& f_tolerant_bool(a, "photoAutoTag"@) is Some
    &&& f_text(a, "platform"@) is Some
    &&& f_text(a, "platformVersion"@) is Some
    &&& f_tolerant_bool(a, "pluginHost"@) is Some
    &&& f_tolerant_bool(a, "requestParametersInCookie"@) is Some
    &&& f_unsigned(a, "readOnlyLibraries"@, u16::MAX as int) is Some
    &&& f_opt_unsigned(a, "streamingBrainABRVersion"@, u8::MAX as int) is Some
    &&& f_unsigned(a, "streamingBrainVersion"@, u8::MAX as int) is Some
    &&& f_tolerant_bool(a, "sync"@) is Some
    &&& f_unsigned(a, "transcoderActiveVideoSessions"@, u8::MAX as int) is Some
    &&& f_tolerant_bool(a, "transcoderAudio"@) is Some
    &&& f_tolerant_bool(a, "transcoderLyrics"@) is Some
    &&& f_tolerant_bool(a, "transcoderPhoto"@) is Some
    &&& f_tolerant_bool(a, "transcoderSubtitles"@) is Some
    &&& f_tolerant_bool(a, "transcoderVideo"@) is Some
    &&& f_tolerant_bool(a, "updater"@) is Some
    &&& f_tolerant_bool(a, "voiceSearch"@) is Some
    &&& f_opt_list_num(a, "transcoderVideoBitrates"@, u16::MAX as int) is Some
    &&& f_opt_list_num(a, "transcoderVideoQualities"@, u8::MAX as int) is Some
    &&& f_opt_list_num(a, "transcoderVideoResolutions"@, u16::MAX as int) is Some
    &&& f_opt_ts(a, "updatedAt"@) is Some
    &&& f_opt_unsigned(a, "maxUploadBitrate"@, u16::MAX as int) is Some
    &&& f_opt_text(a, "maxUploadBitrateReason"@) is Some
    &&& f_opt_text(a, "maxUploadBitrateReasonMessage"@) is Some
    &&& f_opt_tolerant_bool(a, "pushNotifications"@) is Some
    &&& server_directories_ok(children_named(el.children@, "Directory"@))
    &&& match f_text(a, "version"@) {
        Some(s) => plex_version_ok(s),
        None => false,
    }
    &&& mc_ok(a)
}

/// Whether `c` is the server-info container that the raw element resolves
/// to.
pub open spec fn server_matches(el: RawElement, c: ServerMediaContainer) -> bool {
    let a = el.attrs@;
    &&& f_text(a, "machineIdentifier"@) == Some(c.machine_identifier@)
    &&& f_tolerant_bool(a, "allowCameraUpload"@) == Some(c.allow_camera_upload)
    &&& f_tolerant_bool(a, "allowChannelAccess"@) == Some(c.allow_channel_access)
    &&& f_tolerant_bool_default(a, "allowMediaDeletion"@) == Some(c.allow_media_deletion)
    &&& f_tolerant_bool(a, "allowSharing"@) == Some(c.allow_sharing)
    &&& f_tolerant_bool(a, "allowSync"@) == Some(c.allow_sync)
    &&& f_tolerant_bool_default(a, "allowTuners"@) == Some(c.allow_tuners)
    &&& f_tolerant_bool(a, "backgroundProcessing"@) == Some(c.background_processing)
    &&& f_tolerant_bool_default(a, "certificate"@) == Some(c.certificate)
    &&& f_tolerant_bool(a, "companionProxy"@) == Some(c.companion_proxy)
    &&& f_text_default(a, "countryCode"@) == Some(c.country_code@)
    &&& f_unsigned(a, "livetv"@, u8::MAX as int) == Some(c.livetv as int)
    &&& f_opt_list_text(a, "diagnostics"@) == Some(olist_text_view(c.diagnostics))
    &&& f_opt_tolerant_bool(a, "mediaProviders"@) == Some(c.media_providers)
    &&& f_opt_tolerant_bool(a, "multiuser"@) == Some(c.multiuser)
    &&& f_opt_tolerant_bool(a, "myPlex"@) == Some(c.my_plex)
    &&& f_opt_tolerant_bool(a, "myPlexSubscription"@) == Some(c.my_plex_subscription)
    &&& f_opt_text(a, "myPlexMappingState"@) == Some(oview(c.my_plex_mapping_state))
    &&& f_opt_text(a, "myPlexSigninState"@) == Some(oview(c.my_plex_signin_state))
    &&& f_opt_text(a, "myPlexUsername"@) == Some(oview(c.my_plex_username))
    &&& f_opt_list_text(a, "ownerFeatures"@) == Some(olist_text_view(c.owner_features))
    &&& f_tolerant_bool(a, "eventStream"@) == Some(c.event_stream)
    &&& f_tolerant_bool(a, "hubSearch"@) == Some(c.hub_search)
    &&& f_tolerant_bool(a, "itemClusters"@) == Some(c.item_clusters)
    &&& f_tolerant_bool(a, "photoAutoTag"@) == Some(c.photo_auto_tag)
    &&& f_text(a, "platform"@) == Some(c.platform@)
    &&& f_text(a, "platformVersion"@) == Some(c.platform_version@)
    &&& f_tolerant_bool(a, "pluginHost"@) == Some(c.plugin_host)
    &&& f_tolerant_bool(a, "requestParametersInCookie"@) == Some(c.request_parameters_in_cookie)
    &&& f_unsigned(a, "readOnlyLibraries"@, u16::MAX as int) == Some(c.read_only_libraries as int)
    &&& f_opt_unsigned(a, "streamingBrainABRVersion"@, u8::MAX as int) == Some(oint_u8(c.streaming_brain_abr_version))
    &&& f_unsigned(a, "streamingBrainVersion"@, u8::MAX as int) == Some(c.streaming_brain_version as int)
    &&& f_tolerant_bool(a, "sync"@) == Some(c.sync)
    &&& f_unsigned(a, "transcoderActiveVideoSessions"@, u8::MAX as int) == Some(c.transcoder_active_video_sessions as int)
    &&& f_tolerant_bool(a, "transcoderAudio"@) == Some(c.transcoder_audio)
    &&& f_tolerant_bool(a, "transcoderLyrics"@) == Some(c.transcoder_lyrics)
    &&& f_tolerant_bool(a, "transcoderPhoto"@) == Some(c.transcoder_photo)
    &&& f_tolerant_bool(a, "transcoderSubtitles"@) == Some(c.transcoder_subtitles)
    &&& f_tolerant_bool(a, "transcoderVideo"@) == Some(c.transcoder_video)
    &&& f_tolerant_bool(a, "updater"@) == Some(c.updater)
    &&& f_tolerant_bool(a, "voiceSearch"@) == Some(c.voice_search)
    &&& f_opt_list_num(a, "transcoderVideoBitrates"@, u16::MAX as int) == Some(olist16_view(c.transcoder_video_bitrates))
    &&& f_opt_list_num(a, "transcoderVideoQualities"@, u8::MAX as int) == Some(olist8_view(c.transcoder_video_qualities))
    &&& f_opt_list_num(a, "transcoderVideoResolutions"@, u16::MAX as int) == Some(olist16_view(c.transcoder_video_resolutions))
    &&& f_opt_ts(a, "updatedAt"@) == Some(ots_view(c.updated_at))
    &&& f_opt_unsigned(a, "maxUploadBitrate"@, u16::MAX as int) == Some(oint_u16(c.max_upload_bitrate))
    &&& f_opt_text(a, "maxUploadBitrateReason"@) == Some(oview(c.max_upload_bitrate_reason))
    &&& f_opt_text(a, "maxUploadBitrateReasonMessage"@) == Some(oview(c.max_upload_bitrate_reason_message))
    &&& f_opt_tolerant_bool(a, "pushNotifications"@) == Some(c.push_notifications)
    &&& server_directories_match(
        children_named(el.children@, "Directory"@),
        c.directories@,
    )
    &&& match f_text(a, "version"@) {
        Some(s) => {
            &&& plex_version_ok(s)
            &&& c.version.major as int == dec_value(split_on(s, '.')[0])
            &&& c.version.minor as int == dec_value(split_on(s, '.')[1])
            &&& c.version.patch as int == dec_value(split_on(s, '.')[2])
            &&& c.version.build@ == split_on(s, '.')[3]
        },
        None => false,
    }
    &&& mc_matches(a, c.media_container)
}

/// Decodes the server-info container from its envelope-level element.
pub fn decode_server(el: &RawElement) -> (r: Result<
    ServerMediaContainer,
    LoadError,
>)
    ensures
        match r {
            Ok(c) => server_ok(*el) && server_matches(*el, c),
            Err(e) => !server_ok(*el) && e.is_decode_failure(),
        },
{
    let a = &el.attrs;
    let machine_identifier = req_text(a, "machineIdentifier")?;
    let allow_camera_upload = req_tolerant_bool(a, "allowCameraUpload")?;
    let allow_channel_access = req_tolerant_bool(a, "allowChannelAccess")?;
    let allow_media_deletion = def_tolerant_bool(a, "allowMediaDeletion")?;
    let allow_sharing = req_tolerant_bool(a, "allowSharing")?;
    let allow_sync = req_tolerant_bool(a, "allowSync")?;
    let allow_tuners = def_tolerant_bool(a, "allowTuners")?;
    let background_processing = req_tolerant_bool(a, "backgroundProcessing")?;
    let certificate = def_tolerant_bool(a, "certificate")?;
    let companion_proxy = req_tolerant_bool(a, "companionProxy")?;
    let country_code = def_text(a, "countryCode")?;
    let livetv = req_unsigned(a, "livetv", u8::MAX as u64)? as u8;
    let diagnostics = opt_list_text(a, "diagnostics")?;
    let media_providers = opt_tolerant_bool(a, "mediaProviders")?;
    let multiuser = opt_tolerant_bool(a, "multiuser")?;
    let my_plex = opt_tolerant_bool(a, "myPlex")?;
    let my_plex_subscription = opt_tolerant_bool(a, "myPlexSubscription")?;
    let my_plex_mapping_state = opt_text(a, "myPlexMappingState")?;
    let my_plex_signin_state = opt_text(a, "myPlexSigninState")?;
    let my_plex_username = opt_text(a, "myPlexUsername")?;
    let owner_features = opt_list_text(a, "ownerFeatures")?;
    let event_stream = req_tolerant_bool(a, "eventStream")?;
    let hub_search = req_tolerant_bool(a, "hubSearch")?;
    let item_clusters = req_tolerant_bool(a, "itemClusters")?;
    let photo_auto_tag = req_tolerant_bool(a, "photoAutoTag")?;
    let platform = req_text(a, "platform")?;
    let platform_version = req_text(a, "platformVersion")?;
    let plugin_host = req_tolerant_bool(a, "pluginHost")?;
    let request_parameters_in_cookie = req_tolerant_bool(a, "requestParametersInCookie")?;
    let read_only_libraries = req_unsigned(a, "readOnlyLibraries", u16::MAX as u64)? as u16;
    let streaming_brain_abr_version = match opt_unsigned(a, "streamingBrainABRVersion", u8::MAX as u64)? {
            Some(x) => Some(x as u8),
            None => None,
        };
    let streaming_brain_version = req_unsigned(a, "streamingBrainVersion", u8::MAX as u64)? as u8;
    let sync = req_tolerant_bool(a, "sync")?;
    let transcoder_active_video_sessions = req_unsigned(a, "transcoderActiveVideoSessions", u8::MAX as u64)? as u8;
    let transcoder_audio = req_tolerant_bool(a, "transcoderAudio")?;
    let transcoder_lyrics = req_tolerant_bool(a, "transcoderLyrics")?;
    let transcoder_photo = req_tolerant_bool(a, "transcoderPhoto")?;
    let transcoder_subtitles = req_tolerant_bool(a, "transcoderSubtitles")?;
    let transcoder_video = req_tolerant_bool(a, "transcoderVideo")?;
    let updater = req_tolerant_bool(a, "updater")?;
    let voice_search = req_tolerant_bool(a, "voiceSearch")?;
    let transcoder_video_bitrates = match opt_list_num(a, "transcoderVideoBitrates", u16::MAX as u64)? {
            Some(x) => Some(to_u16_list(x)),
            None => None,
        };
    let transcoder_video_qualities = match opt_list_num(a, "transcoderVideoQualities", u8::MAX as u64)? {
            Some(x) => Some(to_u8_list(x)),
            None => None,
        };
    let transcoder_video_resolutions = match opt_list_num(a, "transcoderVideoResolutions", u16::MAX as u64)? {
            Some(x) => Some(to_u16_list(x)),
            None => None,
        };
    let updated_at = opt_ts(a, "updatedAt")?;
    let max_upload_bitrate = match opt_unsigned(a, "maxUploadBitrate", u16::MAX as u64)? {
            Some(x) => Some(x as u16),
            None => None,
        };
    let max_upload_bitrate_reason = opt_text(a, "maxUploadBitrateReason")?;
    let max_upload_bitrate_reason_message = opt_text(a, "maxUploadBitrateReasonMessage")?;
    let push_notifications = opt_tolerant_bool(a, "pushNotifications")?;
    let version_text = req_text(a, "version")?;
    let version = parse_plex_version(version_text.as_str())?;
    let media_container = decode_media_container(a)?;

    let dir_els = get_children(el, "Directory");
    let ghost named = children_named(el.children@, "Directory"@);
    if dir_els.len() == 0 {
        return Err(
            LoadError::SchemaMismatch {
                field: String::from_str("Directory"),
                reason: String::from_str("required collection is absent"),
            },
        );
    }
    let mut directories: Vec<Directory> = Vec::new();
    let mut i: usize = 0;
    while i < dir_els.len()
        invariant
            named == children_named(el.children@, "Directory"@),
            dir_els@.map_values(|e: &RawElement| *e) == named,
            i <= named.len(),
            directories@.len() == i,
            forall|j: int| 0 <= j < i ==> server_directory_ok(#[trigger] named[j]),
            forall|j: int|
                0 <= j < i ==> server_directory_matches(
                    #[trigger] named[j],
                    directories@[j],
                ),
        decreases dir_els@.len() - i,
    {
        proof {
            assert(dir_els@.map_values(|e: &RawElement| *e)[i as int]
                == named[i as int]);
        }
        match decode_server_directory(dir_els[i]) {
            Ok(d) => {
                directories.push(d);
            },
            Err(e) => {
                proof {
                    assert(!server_directory_ok(named[i as int]));
                    assert(!server_directories_ok(named));
                }
                return Err(e);
            },
        }
        i += 1;
    }
    Ok(
        ServerMediaContainer {
            machine_identifier,
            directories,
            allow_camera_upload,
            allow_channel_access,
            allow_media_deletion,
            allow_sharing,
            allow_sync,
            allow_tuners,
            background_processing,
            certificate,
            companion_proxy,
            country_code,
            livetv,
            diagnostics,
            media_providers,
            multiuser,
            my_plex,
            my_plex_subscription,
            my_plex_mapping_state,
            my_plex_signin_state,
            my_plex_username,
            owner_features,
            event_stream,
            hub_search,
            item_clusters,
            photo_auto_tag,
            platform,
            platform_version,
            plugin_host,
            request_parameters_in_cookie,
            read_only_libraries,
            streaming_brain_abr_version,
            streaming_brain_version,
            sync,
            transcoder_active_video_sessions,
            transcoder_audio,
            transcoder_lyrics,
            transcoder_photo,
            transcoder_subtitles,
            transcoder_video,
            updater,
            voice_search,
            transcoder_video_bitrates,
            transcoder_video_qualities,
            transcoder_video_resolutions,
            updated_at,
            max_upload_bitrate,
            max_upload_bitrate_reason,
            max_upload_bitrate_reason_message,
            push_notifications,
            version,
            media_container,
        },
    )
}

impl ServerMediaContainer {
    /// The shared base metadata of this container.
    pub fn get_media_container(&self) -> (r: &MediaContainer)
        ensures
            r == &self.media_container,
    {
        &self.media_container
    }

    /// A read-only projection of the server's directory entries.
    pub fn get_directories(&self) -> (r: &Vec<Directory>)
        ensures
            r == &self.directories,
    {
        &self.directories
    }

    /// The server's version.
    pub fn get_version(&self) -> (r: &Version)
        ensures
            r == &self.version,
    {
        &self.version
    }
}

/// Whether two decoded server-info records carry the same values, field for
/// field, up to string views.
pub open spec fn server_records_agree(
    c1: ServerMediaContainer,
    c2: ServerMediaContainer,
) -> bool {
    &&& c1.machine_identifier@ == c2.machine_identifier@
    &&& c1.allow_camera_upload == c2.allow_camera_upload
    &&& c1.allow_channel_access == c2.allow_channel_access
    &&& c1.allow_media_deletion == c2.allow_media_deletion
    &&& c1.allow_sharing == c2.allow_sharing
    &&& c1.allow_sync == c2.allow_sync
    &&& c1.allow_tuners == c2.allow_tuners
    &&& c1.background_processing == c2.background_processing
    &&& c1.certificate == c2.certificate
    &&& c1.companion_proxy == c2.companion_proxy
    &&& c1.country_code@ == c2.country_code@
    &&& c1.livetv == c2.livetv
    &&& olist_text_view(c1.diagnostics) == olist_text_view(c2.diagnostics)
    &&& c1.media_providers == c2.media_providers
    &&& c1.multiuser == c2.multiuser
    &&& c1.my_plex == c2.my_plex
    &&& c1.my_plex_subscription == c2.my_plex_subscription
    &&& oview(c1.my_plex_mapping_state) == oview(c2.my_plex_mapping_state)
    &&& oview(c1.my_plex_signin_state) == oview(c2.my_plex_signin_state)
    &&& oview(c1.my_plex_username) == oview(c2.my_plex_username)
    &&& olist_text_view(c1.owner_features) == olist_text_view(c2.owner_features)
    &&& c1.event_stream == c2.event_stream
    &&& c1.hub_search == c2.hub_search
    &&& c1.item_clusters == c2.item_clusters
    &&& c1.photo_auto_tag == c2.photo_auto_tag
    &&& c1.platform@ == c2.platform@
    &&& c1.platform_version@ == c2.platform_version@
    &&& c1.plugin_host == c2.plugin_host
    &&& c1.request_parameters_in_cookie == c2.request_parameters_in_cookie
    &&& c1.read_only_libraries == c2.read_only_libraries
    &&& c1.streaming_brain_abr_version == c2.streaming_brain_abr_version
    &&& c1.streaming_brain_version == c2.streaming_brain_version
    &&& c1.sync == c2.sync
    &&& c1.transcoder_active_video_sessions == c2.transcoder_active_video_sessions
    &&& c1.transcoder_audio == c2.transcoder_audio
    &&& c1.transcoder_lyrics == c2.transcoder_lyrics
    &&& c1.transcoder_photo == c2.transcoder_photo
    &&& c1.transcoder_subtitles == c2.transcoder_subtitles
    &&& c1.transcoder_video == c2.transcoder_video
    &&& c1.updater == c2.updater
    &&& c1.voice_search == c2.voice_search
    &&& olist16_view(c1.transcoder_video_bitrates) == olist16_view(c2.transcoder_video_bitrates)
    &&& olist8_view(c1.transcoder_video_qualities) == olist8_view(c2.transcoder_video_qualities)
    &&& olist16_view(c1.transcoder_video_resolutions) == olist16_view(c2.transcoder_video_resolutions)
    &&& c1.updated_at == c2.updated_at
    &&& c1.max_upload_bitrate == c2.max_upload_bitrate
    &&& oview(c1.max_upload_bitrate_reason) == oview(c2.max_upload_bitrate_reason)
    &&& oview(c1.max_upload_bitrate_reason_message) == oview(c2.max_upload_bitrate_reason_message)
    &&& c1.push_notifications == c2.push_notifications
    &&& c1.directories@.len() == c2.directories@.len()
    &&& forall|i: int|
        0 <= i < c1.directories@.len() ==> {
            &&& (#[trigger] c1.directories@[i]).key@ == c2.directories@[i].key@
            &&& c1.directories@[i].title@ == c2.directories@[i].title@
            &&& c1.directories@[i].count == c2.directories@[i].count
        }
    &&& c1.version.major == c2.version.major
    &&& c1.version.minor == c2.version.minor
    &&& c1.version.patch == c2.version.patch
    &&& c1.version.build@ == c2.version.build@
    &&& oint_u64(c1.media_container.size) == oint_u64(c2.media_container.size)
    &&& oint_u64(c1.media_container.total_size) == oint_u64(
        c2.media_container.total_size,
    )
    &&& oview(c1.media_container.title) == oview(c2.media_container.title)
    &&& oview(c1.media_container.identifier) == oview(
        c2.media_container.identifier,
    )
}

/// Decoding is a function of the document alone: any two records that one
/// raw element resolves to carry the same values. In particular, decoding
/// the same bytes twice yields equal records.
pub proof fn lemma_server_decode_deterministic(
    el: RawElement,
    c1: ServerMediaContainer,
    c2: ServerMediaContainer,
)
    requires
        server_matches(el, c1),
        server_matches(el, c2),
    ensures
        server_records_agree(c1, c2),
{
    let named = children_named(el.children@, "Directory"@);
    assert forall|i: int| 0 <= i < c1.directories@.len() implies {
        &&& (#[trigger] c1.directories@[i]).key@ == c2.directories@[i].key@
        &&& c1.directories@[i].title@ == c2.directories@[i].title@
        &&& c1.directories@[i].count == c2.directories@[i].count
    } by {
        assert(server_directory_matches(named[i], c1.directories@[i]));
        assert(server_directory_matches(named[i], c2.directories@[i]));
    }
}

} // verus!

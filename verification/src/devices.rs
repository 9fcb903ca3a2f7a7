//! The device-list container and the two-phase token attachment. Decoding
//! produces unauthenticated device entries; an explicit attachment step
//! consumes each entry and returns an authenticated device. No device is
//! handed to calling code without its token field populated (an empty
//! string counts as populated-but-unauthenticated).

use vstd::prelude::*;
use crate::error::LoadError;
use crate::raw::{RawElement, children_named, get_children};
use crate::schema::{
    MediaContainer, mc_ok, mc_matches, decode_media_container, oview, f_text,
    req_text, f_opt_text, opt_text,
};
use crate::text::views_of;

verus! {

/// A device as decoded from the wire: identification and product
/// information plus its declared connection URIs, but no token yet.
#[derive(Debug)]
pub struct DeviceEntry {
    pub client_identifier: String,
    pub name: String,
    pub product: Option<String>,
    pub product_version: Option<String>,
    pub platform: Option<String>,
    pub connections: Vec<String>,
}

/// An authenticated device: a decoded entry with exactly one
/// caller-supplied token attached.
#[derive(Debug)]
pub struct Device {
    pub client_identifier: String,
    pub name: String,
    pub product: Option<String>,
    pub product_version: Option<String>,
    pub platform: Option<String>,
    pub connections: Vec<String>,
    pub auth_token: String,
}

/// Whether every raw `Connection` element carries its required URI.
pub open spec fn connections_ok(els: Seq<RawElement>) -> bool {
    forall|i: int|
        0 <= i < els.len() ==> f_text((#[trigger] els[i]).attrs@, "uri"@) is Some
}

/// Whether `cs` is the URI list that the raw collection resolves to.
pub open spec fn connections_match(els: Seq<RawElement>, cs: Seq<String>) -> bool {
    &&& cs.len() == els.len()
    &&& forall|i: int|
        0 <= i < els.len() ==> f_text((#[trigger] els[i]).attrs@, "uri"@) == Some(
            cs[i]@,
        )
}

/// Whether a raw `Device` element resolves against the device schema.
pub open spec fn device_ok(el: RawElement) -> bool {
    let a = el.attrs@;
    &&& f_text(a, "clientIdentifier"@) is Some
    &&& f_text(a, "name"@) is Some
    &&& f_opt_text(a, "product"@) is Some
    &&& f_opt_text(a, "productVersion"@) is Some
    &&& f_opt_text(a, "platform"@) is Some
    &&& connections_ok(children_named(el.children@, "Connection"@))
}

/// Whether `d` is the device entry that the raw element resolves to.
pub open spec fn device_matches(el: RawElement, d: DeviceEntry) -> bool {
    let a = el.attrs@;
    &&& f_text(a, "clientIdentifier"@) == Some(d.client_identifier@)
    &&& f_text(a, "name"@) == Some(d.name@)
    &&& f_opt_text(a, "product"@) == Some(oview(d.product))
    &&& f_opt_text(a, "productVersion"@) == Some(oview(d.product_version))
    &&& f_opt_text(a, "platform"@) == Some(oview(d.platform))
    &&& connections_match(
        children_named(el.children@, "Connection"@),
        d.connections@,
    )
}

/// Decodes one `Device` element, connection URIs included. An omitted
/// `Connection` collection is the empty list.
pub fn decode_device(el: &RawElement) -> (r: Result<DeviceEntry, LoadError>)
    ensures
        match r {
            Ok(d) => device_ok(*el) && device_matches(*el, d),
            Err(e) => !device_ok(*el) && e.is_decode_failure(),
        },
{
    let a = &el.attrs;
    let client_identifier = req_text(a, "clientIdentifier")?;
    let name = req_text(a, "name")?;
    let product = opt_text(a, "product")?;
    let product_version = opt_text(a, "productVersion")?;
    let platform = opt_text(a, "platform")?;

    let conn_els = get_children(el, "Connection");
    let ghost named = children_named(el.children@, "Connection"@);
    let mut connections: Vec<String> = Vec::new();
    let mut i: usize = 0;
    while i < conn_els.len()
        invariant
            named == children_named(el.children@, "Connection"@),
            conn_els@.map_values(|e: &RawElement| *e) == named,
            i <= named.len(),
            connections@.len() == i,
            forall|j: int|
                0 <= j < i ==> f_text((#[trigger] named[j]).attrs@, "uri"@)
                    is Some,
            forall|j: int|
                0 <= j < i ==> f_text((#[trigger] named[j]).attrs@, "uri"@)
                    == Some(connections@[j]@),
        decreases conn_els@.len() - i,
    {
        proof {
            assert(conn_els@.map_values(|e: &RawElement| *e)[i as int]
                == named[i as int]);
        }
        match req_text(&conn_els[i].attrs, "uri") {
            Ok(uri) => {
                connections.push(uri);
            },
            Err(e) => {
                proof {
                    assert(f_text(named[i as int].attrs@, "uri"@) is None);
                    assert(!connections_ok(named));
                }
                return Err(e);
            },
        }
        i += 1;
    }
    Ok(
        DeviceEntry {
            client_identifier,
            name,
            product,
            product_version,
            platform,
            connections,
        },
    )
}

/// The device-list container: the devices registered with an account,
/// still unauthenticated, plus the shared base metadata.
#[derive(Debug)]
pub struct DevicesMediaContainer {
    pub devices: Vec<DeviceEntry>,
    pub media_container: MediaContainer,
}

/// Whether every element of the raw `Device` collection resolves; an
/// omitted collection is the declared default, the empty list.
pub open spec fn device_list_ok(els: Seq<RawElement>) -> bool {
    forall|i: int| 0 <= i < els.len() ==> device_ok(#[trigger] els[i])
}

/// Whether `ds` is, element for element, what the raw collection resolves
/// to.
pub open spec fn device_list_matches(
    els: Seq<RawElement>,
    ds: Seq<DeviceEntry>,
) -> bool {
    &&& ds.len() == els.len()
    &&& forall|i: int|
        0 <= i < els.len() ==> device_matches(#[trigger] els[i], ds[i])
}

/// Whether a raw envelope-level element resolves against the device-list
/// schema.
pub open spec fn devices_ok(el: RawElement) -> bool {
    &&& device_list_ok(children_named(el.children@, "Device"@))
    &&& mc_ok(el.attrs@)
}

/// Whether `c` is the device-list container that the raw element resolves
/// to.
pub open spec fn devices_matches(el: RawElement, c: DevicesMediaContainer) -> bool {
    &&& device_list_matches(children_named(el.children@, "Device"@), c.devices@)
    &&& mc_matches(el.attrs@, c.media_container)
}

/// Decodes the device-list container from its envelope-level element.
pub fn decode_devices(el: &RawElement) -> (r: Result<
    DevicesMediaContainer,
    LoadError,
>)
    ensures
        match r {
            Ok(c) => devices_ok(*el) && devices_matches(*el, c),
            Err(e) => !devices_ok(*el) && e.is_decode_failure(),
        },
{
    let media_container = decode_media_container(&el.attrs)?;
    let dev_els = get_children(el, "Device");
    let ghost named = children_named(el.children@, "Device"@);
    let mut devices: Vec<DeviceEntry> = Vec::new();
    let mut i: usize = 0;
    while i < dev_els.len()
        invariant
            named == children_named(el.children@, "Device"@),
            dev_els@.map_values(|e: &RawElement| *e) == named,
            i <= named.len(),
            devices@.len() == i,
            forall|j: int| 0 <= j < i ==> device_ok(#[trigger] named[j]),
            forall|j: int|
                0 <= j < i ==> device_matches(#[trigger] named[j], devices@[j]),
        decreases dev_els@.len() - i,
    {
        proof {
            assert(dev_els@.map_values(|e: &RawElement| *e)[i as int]
                == named[i as int]);
        }
        match decode_device(dev_els[i]) {
            Ok(d) => {
                devices.push(d);
            },
            Err(e) => {
                proof {
                    assert(!device_ok(named[i as int]));
                    assert(!device_list_ok(named));
                }
                return Err(e);
            },
        }
        i += 1;
    }
    Ok(DevicesMediaContainer { devices, media_container })
}

impl DevicesMediaContainer {
    /// The decoded device entries. A container that reports no devices
    /// yields the empty sequence, never an error.
    pub fn get_devices(self) -> (r: Vec<DeviceEntry>)
        ensures
            r == self.devices,
    {
        self.devices
    }
}

/// Whether an authenticated device carries exactly the fields of an entry,
/// with the given token attached.
pub open spec fn device_authenticated(
    d: DeviceEntry,
    token: Seq<char>,
    a: Device,
) -> bool {
    &&& a.client_identifier@ == d.client_identifier@
    &&& a.name@ == d.name@
    &&& oview(a.product) == oview(d.product)
    &&& oview(a.product_version) == oview(d.product_version)
    &&& oview(a.platform) == oview(d.platform)
    &&& views_of(a.connections@) == views_of(d.connections@)
    &&& a.auth_token@ == token
}

impl DeviceEntry {
    /// Consumes the unauthenticated entry and returns the authenticated
    /// device: the one post-construction write the model allows.
    pub fn into_device(self, token: &str) -> (r: Device)
        ensures
            device_authenticated(self, token@, r),
    {
        Device {
            client_identifier: self.client_identifier,
            name: self.name,
            product: self.product,
            product_version: self.product_version,
            platform: self.platform,
            connections: self.connections,
            auth_token: String::from_str(token),
        }
    }
}

/// Attaches one token to every decoded entry. Every returned device is
/// authenticated: it carries its entry's fields and the supplied token —
/// no device comes back pre-attachment.
pub fn attach_tokens(entries: Vec<DeviceEntry>, token: &str) -> (r: Vec<Device>)
    ensures
        r@.len() == entries@.len(),
        forall|i: int|
            0 <= i < entries@.len() ==> device_authenticated(
                entries@[i],
                token@,
                #[trigger] r@[i],
            ),
        forall|i: int|
            0 <= i < r@.len() ==> (#[trigger] r@[i]).auth_token@ == token@,
{
    let ghost orig = entries@;
    let mut entries = entries;
    let mut r: Vec<Device> = Vec::new();
    let mut i: usize = 0;
    let n = entries.len();
    proof {
        assert(orig.skip(0) =~= orig);
    }
    while i < n
        invariant
            n == orig.len(),
            entries@ == orig.skip(i as int),
            i <= n,
            r@.len() == i,
            forall|j: int|
                0 <= j < i ==> device_authenticated(
                    orig[j],
                    token@,
                    #[trigger] r@[j],
                ),
        decreases n - i,
    {
        proof {
            assert(entries@[0] == orig[i as int]);
            assert(orig.skip(i as int).drop_first() =~= orig.skip(i + 1));
        }
        let e = entries.remove(0);
        r.push(e.into_device(token));
        i += 1;
    }
    r
}

} // verus!

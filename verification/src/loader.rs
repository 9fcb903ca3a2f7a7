//! The document loader: a one-shot, stateless transformation from a raw
//! document and a declared schema to one typed container, or to a
//! structured error. When the document does not match the requested
//! schema, the loader tries the service's own error envelope before giving
//! up, so that an upstream-reported error is surfaced verbatim rather than
//! as a decode failure. The loader never inspects transport status:
//! callers choose which bytes to hand it.

use vstd::prelude::*;
use crate::error::LoadError;
use crate::raw::RawElement;
use crate::library::{
    LibraryMediaContainer, library_ok, library_matches, decode_library,
    envelope_ok,
};
use crate::server::{ServerMediaContainer, server_ok, server_matches, decode_server};
use crate::devices::{
    DevicesMediaContainer, devices_ok, devices_matches, decode_devices,
};
use crate::schema::{f_unsigned, req_unsigned, f_text, req_text};

verus! {

/// The schema a caller declares for the bytes it fetched: one per
/// endpoint.
#[derive(Debug, Clone, Copy, PartialEq, Eq, Structural)]
pub enum DocumentSchema {
    ServerInfo,
    LibrarySections,
    DeviceList,
}

/// One decoded container, tagged by the schema it was decoded against.
#[derive(Debug)]
pub enum ContainerVariant {
    ServerInfo(ServerMediaContainer),
    LibrarySections(LibraryMediaContainer),
    DeviceList(DevicesMediaContainer),
}

/// Whether the raw document resolves against the declared schema,
/// envelope included.
pub open spec fn schema_ok(doc: RawElement, s: DocumentSchema) -> bool {
    &&& envelope_ok(doc)
    &&& match s {
        DocumentSchema::ServerInfo => server_ok(doc),
        DocumentSchema::LibrarySections => library_ok(doc),
        DocumentSchema::DeviceList => devices_ok(doc),
    }
}

/// Whether `c` is the container that the document resolves to under the
/// declared schema.
pub open spec fn schema_matches(
    doc: RawElement,
    s: DocumentSchema,
    c: ContainerVariant,
) -> bool {
    match c {
        ContainerVariant::ServerInfo(x) => s == DocumentSchema::ServerInfo
            && server_matches(doc, x),
        ContainerVariant::LibrarySections(x) => s
            == DocumentSchema::LibrarySections && library_matches(doc, x),
        ContainerVariant::DeviceList(x) => s == DocumentSchema::DeviceList
            && devices_matches(doc, x),
    }
}

/// Whether the raw document resolves against the service's own error
/// envelope: a `Response` element carrying a numeric code and a message.
pub open spec fn error_envelope_ok(doc: RawElement) -> bool {
    &&& doc.name@ == "Response"@
    &&& f_unsigned(doc.attrs@, "code"@, i64::MAX as int) is Some
    &&& f_text(doc.attrs@, "message"@) is Some
}

/// Decodes the service's error envelope.
pub fn decode_error_envelope(doc: &RawElement) -> (r: Result<
    (i64, String),
    LoadError,
>)
    ensures
        match r {
            Ok((code, message)) => error_envelope_ok(*doc) && f_unsigned(
                doc.attrs@,
                "code"@,
                i64::MAX as int,
            ) == Some(code as int) && f_text(doc.attrs@, "message"@) == Some(
                message@,
            ),
            Err(e) => !error_envelope_ok(*doc) && e.is_decode_failure(),
        },
{
    if !crate::text::str_eq(doc.name.as_str(), "Response") {
        return Err(
            LoadError::SchemaMismatch {
                field: String::from_str("Response"),
                reason: String::from_str("the error envelope element is absent"),
            },
        );
    }
    let code = req_unsigned(&doc.attrs, "code", i64::MAX as u64)?;
    let message = req_text(&doc.attrs, "message")?;
    Ok((code as i64, message))
}

/// Loads one typed container from a raw document, against the schema the
/// caller declares.
///
/// On a schema mismatch the loader decodes the document once more against
/// the service's error envelope: if that succeeds, the service's own error
/// is returned as `ServiceError`; if not, the original decode failure
/// stands.
pub fn load(doc: &RawElement, schema: DocumentSchema) -> (r: Result<
    ContainerVariant,
    LoadError,
>)
    ensures
        match r {
            Ok(c) => schema_ok(*doc, schema) && schema_matches(*doc, schema, c),
            Err(e) => !schema_ok(*doc, schema) && match e {
                LoadError::ServiceError { code, message } => {
                    &&& error_envelope_ok(*doc)
                    &&& f_unsigned(doc.attrs@, "code"@, i64::MAX as int) == Some(
                        code as int,
                    )
                    &&& f_text(doc.attrs@, "message"@) == Some(message@)
                },
                _ => !error_envelope_ok(*doc) && e.is_decode_failure(),
            },
        },
{
    let decoded: Result<ContainerVariant, LoadError> = if !crate::text::str_eq(
        doc.name.as_str(),
        "MediaContainer",
    ) {
        Err(
            LoadError::SchemaMismatch {
                field: String::from_str("MediaContainer"),
                reason: String::from_str("the envelope element is absent"),
            },
        )
    } else {
        match schema {
            DocumentSchema::ServerInfo => match decode_server(doc) {
                Ok(c) => Ok(ContainerVariant::ServerInfo(c)),
                Err(e) => Err(e),
            },
            DocumentSchema::LibrarySections => match decode_library(doc) {
                Ok(c) => Ok(ContainerVariant::LibrarySections(c)),
                Err(e) => Err(e),
            },
            DocumentSchema::DeviceList => match decode_devices(doc) {
                Ok(c) => Ok(ContainerVariant::DeviceList(c)),
                Err(e) => Err(e),
            },
        }
    };
    match decoded {
        Ok(c) => Ok(c),
        Err(de) => match decode_error_envelope(doc) {
            Ok((code, message)) => Err(LoadError::ServiceError { code, message }),
            Err(_) => Err(de),
        },
    }
}

} // verus!

//! The archive's data model.
//!
//! Every entry the archive stores is a self-describing record: a record
//! type (always "resource" here), the URL the payload was fetched from, an
//! optional MIME type copied verbatim from the fetch, and the payload bytes
//! stored without modification.

use crate::fetch::{RawFetch, ResourceModel, classify_spec};
use vstd::prelude::*;
use vstd::utf8::{decode_utf8, valid_utf8};

verus! {

/// The type of record this system emits; there is exactly one.
#[derive(Clone, Copy, PartialEq, Eq, Structural, Debug)]
pub enum RecordKind {
    /// A resource record: the archived copy of one fetched resource.
    Resource,
}

/// One archive record, immutable once built.
pub struct ArchiveRecord {
    /// What kind of record this is.
    pub kind: RecordKind,
    /// The URL the payload was fetched from; never empty.
    pub target_uri: String,
    /// The MIME type of the payload, when the fetch supplied one.
    pub content_type: Option<String>,
    /// The payload, byte for byte; never empty.
    pub payload: Vec<u8>,
}

/// The mathematical content of an archive record.
pub ghost struct RecordModel {
    pub kind: RecordKind,
    pub target_uri: Seq<char>,
    pub content_type: Option<Seq<char>>,
    pub payload: Seq<u8>,
}

impl View for ArchiveRecord {
    type V = RecordModel;

    open spec fn view(&self) -> RecordModel {
        RecordModel {
            kind: self.kind,
            target_uri: self.target_uri@,
            content_type: self.content_type.deep_view(),
            payload: self.payload@,
        }
    }
}

impl RecordModel {
    /// What every emitted record satisfies: it is a resource record with a
    /// target and a payload.
    pub open spec fn well_formed(self) -> bool {
        &&& self.kind == RecordKind::Resource
        &&& self.target_uri.len() > 0
        &&& self.payload.len() > 0
    }
}

/// The record that archives one fetched resource.
pub open spec fn record_of(r: ResourceModel) -> RecordModel {
    RecordModel {
        kind: RecordKind::Resource,
        target_uri: r.url,
        content_type: r.content_type,
        payload: r.bytes,
    }
}

/// Builds the record for one fetched resource: a resource record whose
/// target, MIME type and payload are taken over unchanged. Callers never
/// build a record without a target or with an empty payload.
pub fn build_record(target_uri: String, payload: Vec<u8>, content_type: Option<String>) -> (r:
    ArchiveRecord)
    requires
        target_uri@.len() > 0,
        payload@.len() > 0,
    ensures
        r@ == (RecordModel {
            kind: RecordKind::Resource,
            target_uri: target_uri@,
            content_type: content_type.deep_view(),
            payload: payload@,
        }),
        r@.well_formed(),
{
    ArchiveRecord { kind: RecordKind::Resource, target_uri, content_type, payload }
}

/// Law: content-type fidelity. When a successful response carries a
/// `Content-Type` header whose value is valid UTF-8 text, the record of the
/// classified resource carries exactly that text; when the response carries
/// no such header, the record has no content type.
pub proof fn lemma_content_type_fidelity(
    url: Seq<char>,
    status: u16,
    header: Vec<u8>,
    body: Vec<u8>,
)
    requires
        200 <= status < 300,
        valid_utf8(header@),
    ensures
        ({
            let r = classify_spec(
                url,
                (RawFetch::Response { status, content_type: Some(header), body: Some(body) }),
            );
            r is Ok && record_of(r->Ok_0).content_type == Some(decode_utf8(header@))
        }),
        ({
            let r = classify_spec(
                url,
                (RawFetch::Response { status, content_type: None, body: Some(body) }),
            );
            r is Ok && record_of(r->Ok_0).content_type is None
        }),
{
}

} // verus!

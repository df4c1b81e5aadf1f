//! The managed DNS record as the provider reports it, the address that the
//! lookup service observed, and the write that brings the first in line with
//! the second.

use vstd::prelude::*;
use vstd::string::StringExecFns;

verus! {

/// An instant on the UTC time line: whole seconds since the Unix epoch and the
/// nanoseconds into that second. The reconciler carries timestamps along and
/// never decides anything by them.
#[derive(Debug, Clone, Copy, PartialEq, Eq, Structural)]
pub struct Timestamp {
    pub seconds: i64,
    pub nanoseconds: u32,
}

/// The provider's current view of the managed record.
#[derive(Debug, PartialEq, Eq)]
pub struct DnsRecord {
    pub id: String,
    pub name: String,
    pub type_field: String,
    pub content: String,
    pub proxiable: bool,
    pub proxied: bool,
    pub ttl: u32,
    pub comment: Option<String>,
    pub created_on: Timestamp,
    pub modified_on: Timestamp,
    pub comment_modified_on: Option<Timestamp>,
}

/// What a [`DnsRecord`] holds, with its texts as sequences of characters.
pub struct DnsRecordView {
    pub id: Seq<char>,
    pub name: Seq<char>,
    pub type_field: Seq<char>,
    pub content: Seq<char>,
    pub proxiable: bool,
    pub proxied: bool,
    pub ttl: u32,
    pub comment: Option<Seq<char>>,
    pub created_on: Timestamp,
    pub modified_on: Timestamp,
    pub comment_modified_on: Option<Timestamp>,
}

/// The characters of an optional text.
pub open spec fn optional_text(text: Option<String>) -> Option<Seq<char>> {
    match text {
        Some(t) => Some(t@),
        None => None,
    }
}

impl View for DnsRecord {
    type V = DnsRecordView;

    open spec fn view(&self) -> DnsRecordView {
        DnsRecordView {
            id: self.id@,
            name: self.name@,
            type_field: self.type_field@,
            content: self.content@,
            proxiable: self.proxiable,
            proxied: self.proxied,
            ttl: self.ttl,
            comment: optional_text(self.comment),
            created_on: self.created_on,
            modified_on: self.modified_on,
            comment_modified_on: self.comment_modified_on,
        }
    }
}

/// The envelope in which the provider answers a read or a write of one record.
#[derive(Debug, PartialEq, Eq)]
pub struct DnsResult {
    pub result: DnsRecord,
}

/// One answer of the address lookup service: the caller's public address as
/// the service wrote it.
#[derive(Debug, PartialEq, Eq)]
pub struct IpResponse {
    pub ip: String,
}

impl View for IpResponse {
    type V = Seq<char>;

    open spec fn view(&self) -> Seq<char> {
        self.ip@
    }
}

/// The write sent to the provider: the complete set of fields that it asks
/// for, of which only `content` and `comment` differ from the held record.
#[derive(Debug, PartialEq, Eq)]
pub struct DnsPatchRequest {
    pub id: String,
    pub comment: Option<String>,
    pub name: String,
    pub proxied: bool,
    pub ttl: u32,
    pub content: String,
    pub type_field: String,
}

/// What a [`DnsPatchRequest`] holds, with its texts as sequences of characters.
pub struct DnsPatchRequestView {
    pub id: Seq<char>,
    pub comment: Option<Seq<char>>,
    pub name: Seq<char>,
    pub proxied: bool,
    pub ttl: u32,
    pub content: Seq<char>,
    pub type_field: Seq<char>,
}

impl View for DnsPatchRequest {
    type V = DnsPatchRequestView;

    open spec fn view(&self) -> DnsPatchRequestView {
        DnsPatchRequestView {
            id: self.id@,
            comment: optional_text(self.comment),
            name: self.name@,
            proxied: self.proxied,
            ttl: self.ttl,
            content: self.content@,
            type_field: self.type_field@,
        }
    }
}

/// The comment that every write leaves on the record. It replaces whatever
/// comment an operator had set there: a record that this service maintains
/// says so.
pub open spec fn provenance_comment() -> Seq<char> {
    "Ip updated by homelabdns"@
}

/// The write that points `record` at `ip`: the record's identity, name, type,
/// proxy flag and TTL as they are, `ip` as the content, and the provenance
/// comment.
pub open spec fn patch_for(record: DnsRecordView, ip: Seq<char>) -> DnsPatchRequestView {
    DnsPatchRequestView {
        id: record.id,
        comment: Some(provenance_comment()),
        name: record.name,
        proxied: record.proxied,
        ttl: record.ttl,
        content: ip,
        type_field: record.type_field,
    }
}

/// What an observation of `ip` asks for while `record` is held: nothing where
/// the record's content is `ip` already, character for character, and else
/// the write `patch_for(record, ip)`. Addresses are not normalised: two
/// spellings of one address differ.
pub open spec fn planned_patch(record: DnsRecordView, ip: Seq<char>) -> Option<DnsPatchRequestView> {
    if ip == record.content {
        None
    } else {
        Some(patch_for(record, ip))
    }
}

/// The view of an optional write.
pub open spec fn optional_patch(patch: Option<DnsPatchRequest>) -> Option<DnsPatchRequestView> {
    match patch {
        Some(p) => Some(p@),
        None => None,
    }
}

/// A copy of an optional text.
pub(crate) fn copy_optional_text(text: &Option<String>) -> (copy: Option<String>)
    ensures
        copy == *text,
{
    match text {
        Some(t) => Some(t.clone()),
        None => None,
    }
}

impl Clone for DnsRecord {
    fn clone(&self) -> (copy: Self)
        ensures
            copy == *self,
    {
        DnsRecord {
            id: self.id.clone(),
            name: self.name.clone(),
            type_field: self.type_field.clone(),
            content: self.content.clone(),
            proxiable: self.proxiable,
            proxied: self.proxied,
            ttl: self.ttl,
            comment: copy_optional_text(&self.comment),
            created_on: self.created_on,
            modified_on: self.modified_on,
            comment_modified_on: self.comment_modified_on,
        }
    }
}

impl Clone for DnsResult {
    fn clone(&self) -> (copy: Self)
        ensures
            copy == *self,
    {
        DnsResult { result: self.result.clone() }
    }
}

impl Clone for IpResponse {
    fn clone(&self) -> (copy: Self)
        ensures
            copy == *self,
    {
        IpResponse { ip: self.ip.clone() }
    }
}

impl Clone for DnsPatchRequest {
    fn clone(&self) -> (copy: Self)
        ensures
            copy == *self,
    {
        DnsPatchRequest {
            id: self.id.clone(),
            comment: copy_optional_text(&self.comment),
            name: self.name.clone(),
            proxied: self.proxied,
            ttl: self.ttl,
            content: self.content.clone(),
            type_field: self.type_field.clone(),
        }
    }
}

impl DnsRecord {
    /// Whether the record's content is exactly `ip`.
    pub fn points_at(&self, ip: &String) -> (same: bool)
        ensures
            same == (self@.content == ip@),
    {
        self.content == *ip
    }
}

impl DnsPatchRequest {
    /// Builds the write that points `record` at `ip`.
    pub fn for_record(record: &DnsRecord, ip: String) -> (patch: DnsPatchRequest)
        ensures
            patch@ == patch_for(record@, ip@),
    {
        DnsPatchRequest {
            id: record.id.clone(),
            comment: Some(String::from_str("Ip updated by homelabdns")),
            name: record.name.clone(),
            proxied: record.proxied,
            ttl: record.ttl,
            content: ip,
            type_field: record.type_field.clone(),
        }
    }
}

/// Compares the observed address with the held record and builds the write
/// where they differ.
pub fn plan_update(record: &DnsRecord, observed: IpResponse) -> (plan: Option<DnsPatchRequest>)
    ensures
        optional_patch(plan) == planned_patch(record@, observed@),
{
    if record.points_at(&observed.ip) {
        None
    } else {
        Some(DnsPatchRequest::for_record(record, observed.ip))
    }
}

} // verus!

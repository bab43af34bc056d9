//! Data carried to and from the remote service.
//!
//! A `Record` is one row: an opaque identifier, a creation timestamp, and an
//! ordered field mapping. The remaining types mirror the request and response
//! shapes of the service; they hold plain values and the embedding program
//! moves them across the wire.

use vstd::prelude::*;

use crate::fields::FieldMap;
use crate::value::FieldValue;
use crate::value::ValueView;

verus! {

/// A single record of a table.
#[derive(Debug, PartialEq)]
pub struct Record {
    /// Provider-assigned opaque identifier (the service prefixes it "rec").
    pub id: String,
    /// Creation timestamp, as the service transmitted it.
    pub created_time: String,
    /// The record's fields, in order.
    pub fields: FieldMap,
}

/// The mathematical shape of a record.
pub struct RecordView {
    pub id: Seq<char>,
    pub created_time: Seq<char>,
    pub fields: Seq<(Seq<char>, ValueView)>,
}

impl View for Record {
    type V = RecordView;

    open spec fn view(&self) -> RecordView {
        RecordView { id: self.id@, created_time: self.created_time@, fields: self.fields@ }
    }
}

/// The views of a sequence of records, elementwise.
pub open spec fn records_view(s: Seq<Record>) -> Seq<RecordView> {
    Seq::new(s.len(), |i: int| s[i]@)
}

/// The identifiers of a sequence of record views, in order.
pub open spec fn record_ids(s: Seq<RecordView>) -> Seq<Seq<char>> {
    Seq::new(s.len(), |i: int| s[i].id)
}

impl Record {
    /// Assemble a record from its parts.
    pub fn new(id: String, created_time: String, fields: FieldMap) -> (r: Record)
        ensures
            r@ == (RecordView { id: id@, created_time: created_time@, fields: fields@ }),
    {
        Record { id, created_time, fields }
    }

    /// A deep copy whose view equals this record's view.
    pub fn duplicate(&self) -> (r: Record)
        ensures
            r@ == self@,
    {
        Record {
            id: self.id.clone(),
            created_time: self.created_time.clone(),
            fields: self.fields.duplicate(),
        }
    }
}

/// One page of a record listing: the records plus the continuation cursor.
/// An absent `offset` is the sole signal that no further page exists; an
/// empty `records` list with a present cursor is a valid, non-final page.
#[derive(Debug, PartialEq)]
pub struct ListRecordsResponse {
    /// The records of this page, in server order.
    pub records: Vec<Record>,
    /// The opaque cursor of the next page, if the listing continues.
    pub offset: Option<String>,
}

/// The mathematical shape of one page.
pub struct PageView {
    pub records: Seq<RecordView>,
    pub offset: Option<Seq<char>>,
}

impl View for ListRecordsResponse {
    type V = PageView;

    open spec fn view(&self) -> PageView {
        PageView {
            records: records_view(self.records@),
            offset: match self.offset {
                Some(s) => Some(s@),
                None => None,
            },
        }
    }
}

/// One record-shaped item of a mutation request: an optional identifier
/// (present for updates and for upsert candidates that target a known
/// record) and the fields to write.
#[derive(Debug, PartialEq)]
pub struct RecordMutation {
    /// Identifier of the record to change, absent for plain creates.
    pub id: Option<String>,
    /// The fields to write.
    pub fields: FieldMap,
}

/// Request body for creating or updating one record.
#[derive(Debug, PartialEq)]
pub struct CreateRecordRequest {
    /// The fields to write.
    pub fields: FieldMap,
    /// Whether responses should key fields by field id instead of name.
    pub return_fields_by_field_id: Option<bool>,
}

/// Request body for batch create and batch update operations.
#[derive(Debug, PartialEq)]
pub struct BatchRequest {
    /// The items of the batch, at least one and at most ten.
    pub records: Vec<RecordMutation>,
    /// Whether the service may coerce submitted values to the field types.
    pub typecast: bool,
    /// Whether responses should key fields by field id instead of name.
    pub return_fields_by_field_id: Option<bool>,
}

/// Request body for batch upsert operations.
#[derive(Debug, PartialEq)]
pub struct BatchUpsertRequest {
    /// The items of the batch, at least one and at most ten.
    pub records: Vec<RecordMutation>,
    /// The fields the service matches existing records on.
    pub fields_to_merge_on: Vec<String>,
    /// Whether the service may coerce submitted values to the field types.
    pub typecast: bool,
    /// Whether responses should key fields by field id instead of name.
    pub return_fields_by_field_id: Option<bool>,
}

/// A comment on a record.
#[derive(Debug, Clone, PartialEq)]
pub struct Comment {
    pub id: String,
    pub author: Collaborator,
    pub text: String,
    pub created_time: String,
}

/// A user or collaborator.
#[derive(Debug, Clone, PartialEq)]
pub struct Collaborator {
    pub id: String,
    pub name: String,
    pub email: String,
}

/// Schema of one table.
#[derive(Debug, PartialEq)]
pub struct TableSchema {
    pub id: String,
    pub name: String,
    pub primary_field_id: String,
    pub fields: Vec<FieldSchema>,
    pub views: Vec<ViewSchema>,
}

/// Schema of one field.
#[derive(Debug, PartialEq)]
pub struct FieldSchema {
    pub id: String,
    pub name: String,
    /// The service's name for the field's type ("singleLineText" and so on).
    pub field_type: String,
    /// Type-specific options, shaped by the service.
    pub options: Option<FieldValue>,
    pub description: Option<String>,
}

/// Schema of one saved server-side view.
#[derive(Debug, Clone, PartialEq)]
pub struct ViewSchema {
    pub id: String,
    pub name: String,
    /// The service's name for the view's kind ("grid" and so on).
    pub view_type: String,
}

/// Schema of a base: its tables.
#[derive(Debug, PartialEq)]
pub struct BaseSchema {
    pub tables: Vec<TableSchema>,
}

/// A file attached to a record.
#[derive(Debug, Clone, PartialEq)]
pub struct Attachment {
    pub id: String,
    pub url: String,
    pub filename: String,
    /// File size in bytes.
    pub size: u64,
    pub content_type: String,
    pub width: Option<u32>,
    pub height: Option<u32>,
    /// Thumbnails by size name, when the file is an image.
    pub thumbnails: Option<Vec<(String, ThumbnailInfo)>>,
}

/// A thumbnail of an image attachment.
#[derive(Debug, Clone, PartialEq)]
pub struct ThumbnailInfo {
    pub url: String,
    pub width: u32,
    pub height: u32,
}

/// The error document the service returns on failure.
#[derive(Debug, Clone, PartialEq)]
pub struct ErrorResponse {
    pub error: ApiError,
}

/// The error payload inside an error document.
#[derive(Debug, Clone, PartialEq)]
pub struct ApiError {
    pub error_type: String,
    pub message: String,
}

/// The current user, as the identity endpoint reports it.
#[derive(Debug, Clone, PartialEq)]
pub struct UserInfo {
    pub id: String,
    /// The service does not always supply a display name.
    pub name: Option<String>,
    pub email: String,
}

/// One base the caller may access.
#[derive(Debug, Clone, PartialEq)]
pub struct BaseInfo {
    pub id: String,
    pub name: String,
    pub permission_level: String,
}

/// The response of the base listing endpoint.
#[derive(Debug, Clone, PartialEq)]
pub struct BasesResponse {
    pub bases: Vec<BaseInfo>,
    pub offset: Option<String>,
}

} // verus!

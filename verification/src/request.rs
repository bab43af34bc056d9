//! Descriptions of the HTTP requests the engine decides to make.
//!
//! The engine never talks to the network itself: it produces a
//! `RequestSpec` — method, URL, query parameters, and a typed body — and the
//! embedding program serializes and sends it. Contracts pin down every part
//! of the description.

use vstd::prelude::*;

use crate::fields::FieldMap;
use crate::models::RecordMutation;
use crate::value::ValueView;

verus! {

/// The HTTP method of a request.
#[derive(Debug, Clone, Copy, PartialEq, Eq, Structural)]
pub enum HttpMethod {
    Get,
    Post,
    Patch,
    Delete,
}

/// The body of a request, as typed data; the transport serializes it.
#[derive(Debug, PartialEq)]
pub enum RequestBody {
    /// No body (record listings, single-record reads, deletes).
    Empty,
    /// One record's fields, for single-record creates and updates.
    Single { fields: FieldMap, typecast: bool },
    /// A batch of record mutations, for batch creates and updates.
    Batch { records: Vec<RecordMutation>, typecast: bool },
    /// A batch of record mutations plus the fields the service merges on.
    Upsert { records: Vec<RecordMutation>, fields_to_merge_on: Vec<String>, typecast: bool },
}

/// The mathematical shape of a record mutation.
pub struct MutationView {
    pub id: Option<Seq<char>>,
    pub fields: Seq<(Seq<char>, ValueView)>,
}

impl View for RecordMutation {
    type V = MutationView;

    open spec fn view(&self) -> MutationView {
        MutationView {
            id: match self.id {
                Some(s) => Some(s@),
                None => None,
            },
            fields: self.fields@,
        }
    }
}

/// The views of a sequence of mutations, elementwise.
pub open spec fn mutations_view(s: Seq<RecordMutation>) -> Seq<MutationView> {
    Seq::new(s.len(), |i: int| s[i]@)
}

/// The views of a sequence of strings, elementwise.
pub open spec fn strings_view(s: Seq<String>) -> Seq<Seq<char>> {
    Seq::new(s.len(), |i: int| s[i]@)
}

/// The mathematical shape of a request body.
pub enum BodyView {
    Empty,
    Single { fields: Seq<(Seq<char>, ValueView)>, typecast: bool },
    Batch { records: Seq<MutationView>, typecast: bool },
    Upsert { records: Seq<MutationView>, fields_to_merge_on: Seq<Seq<char>>, typecast: bool },
}

impl View for RequestBody {
    type V = BodyView;

    open spec fn view(&self) -> BodyView {
        match self {
            RequestBody::Empty => BodyView::Empty,
            RequestBody::Single { fields, typecast } => BodyView::Single {
                fields: fields@,
                typecast: *typecast,
            },
            RequestBody::Batch { records, typecast } => BodyView::Batch {
                records: mutations_view(records@),
                typecast: *typecast,
            },
            RequestBody::Upsert { records, fields_to_merge_on, typecast } => BodyView::Upsert {
                records: mutations_view(records@),
                fields_to_merge_on: strings_view(fields_to_merge_on@),
                typecast: *typecast,
            },
        }
    }
}

/// One HTTP round trip the transport should perform: exactly the
/// `send(method, path, query_params, json_body)` boundary.
#[derive(Debug, PartialEq)]
pub struct RequestSpec {
    /// The HTTP method.
    pub method: HttpMethod,
    /// The full request URL, query string excluded.
    pub url: String,
    /// Query parameters, in order; the transport percent-encodes them.
    pub query: Vec<(String, String)>,
    /// The request body.
    pub body: RequestBody,
}

/// The mathematical shape of a request.
pub struct RequestSpecView {
    pub method: HttpMethod,
    pub url: Seq<char>,
    pub query: Seq<(Seq<char>, Seq<char>)>,
    pub body: BodyView,
}

/// The views of a query parameter list, elementwise.
pub open spec fn params_view(s: Seq<(String, String)>) -> Seq<(Seq<char>, Seq<char>)> {
    Seq::new(s.len(), |i: int| (s[i].0@, s[i].1@))
}

impl View for RequestSpec {
    type V = RequestSpecView;

    open spec fn view(&self) -> RequestSpecView {
        RequestSpecView {
            method: self.method,
            url: self.url@,
            query: params_view(self.query@),
            body: self.body@,
        }
    }
}

} // verus!

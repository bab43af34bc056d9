//! Query builders.
//!
//! Each builder accumulates declarative parameters and is immutable in
//! spirit: a method consumes the builder and returns a new one. A finished
//! builder turns into a `RequestSpec`; `list_query_params` states exactly
//! which query parameters are serialized, with which values, in which order.

use vstd::prelude::*;

use crate::client::TableHandle;
use crate::client::table_url;
use crate::digits::dec_rep;
use crate::digits::u32_to_string;
use crate::error::Error;
use crate::fields::FieldMap;
use crate::models::Record;
use crate::request::BodyView;
use crate::request::HttpMethod;
use crate::request::RequestBody;
use crate::request::RequestSpec;
use crate::request::params_view;
use crate::request::strings_view;

verus! {

/// The view of an optional string.
pub open spec fn opt_text_view(v: Option<String>) -> Option<Seq<char>> {
    match v {
        Some(s) => Some(s@),
        None => None,
    }
}

/// The query parameter a numeric option contributes: none, or one pair
/// carrying the number in decimal.
pub open spec fn opt_num_param(name: Seq<char>, v: Option<u32>) -> Seq<(Seq<char>, Seq<char>)> {
    match v {
        Some(n) => seq![(name, dec_rep(n as nat))],
        None => Seq::empty(),
    }
}

/// The query parameter a text option contributes: none, or one pair carrying
/// the text unchanged.
pub open spec fn opt_text_param(name: Seq<char>, v: Option<String>) -> Seq<(Seq<char>, Seq<char>)> {
    match v {
        Some(s) => seq![(name, s@)],
        None => Seq::empty(),
    }
}

/// The query parameters a list option contributes: one pair per element,
/// in order, all under the same name.
pub open spec fn repeated_param(name: Seq<char>, v: Option<Vec<String>>) -> Seq<
    (Seq<char>, Seq<char>),
> {
    match v {
        Some(items) => Seq::new(items@.len(), |i: int| (name, items@[i]@)),
        None => Seq::empty(),
    }
}

/// Copy an optional string.
pub fn dup_opt_text(v: &Option<String>) -> (r: Option<String>)
    ensures
        opt_text_view(r) == opt_text_view(*v),
{
    match v {
        Some(s) => Some(s.clone()),
        None => None,
    }
}

/// Copy an optional string list.
pub fn dup_opt_texts(v: &Option<Vec<String>>) -> (r: Option<Vec<String>>)
    ensures
        match (r, v) {
            (Some(a), Some(b)) => strings_view(a@) == strings_view(b@),
            (None, None) => true,
            _ => false,
        },
{
    match v {
        Some(items) => {
            let mut out: Vec<String> = Vec::new();
            let mut i: usize = 0;
            while i < items.len()
                invariant
                    i <= items@.len(),
                    out@.len() == i as int,
                    forall|j: int| 0 <= j < i as int ==> out@[j]@ == #[trigger] items@[j]@,
                decreases items@.len() - i,
            {
                out.push(items[i].clone());
                i = i + 1;
            }
            proof {
                assert(strings_view(out@) =~= strings_view(items@));
            }
            Some(out)
        },
        None => None,
    }
}

/// Turn borrowed string slices into owned strings, preserving order.
pub fn strs_to_strings(items: &[&str]) -> (r: Vec<String>)
    ensures
        strings_view(r@) == Seq::new(items@.len(), |i: int| items@[i]@),
{
    let mut out: Vec<String> = Vec::new();
    let mut i: usize = 0;
    while i < items.len()
        invariant
            i <= items@.len(),
            out@.len() == i as int,
            forall|j: int| 0 <= j < i as int ==> out@[j]@ == #[trigger] items@[j]@,
        decreases items@.len() - i,
    {
        out.push(items[i].to_owned());
        i = i + 1;
    }
    proof {
        assert(strings_view(out@) =~= Seq::new(items@.len(), |i: int| items@[i]@));
    }
    out
}

/// Append one query pair per item, all under `name`, in order.
fn push_repeated(out: &mut Vec<(String, String)>, name: &'static str, items: &Vec<String>)
    ensures
        params_view(final(out)@) == params_view(old(out)@) + Seq::new(
            items@.len(),
            |i: int| (name@, items@[i]@),
        ),
{
    let ghost base = params_view(out@);
    let n = items.len();
    let mut i: usize = 0;
    while i < n
        invariant
            base == params_view(old(out)@),
            n == items@.len(),
            i <= n,
            out@.len() == base.len() + i as int,
            forall|j: int| 0 <= j < base.len() ==> params_view(out@)[j] == #[trigger] base[j],
            forall|j: int|
                base.len() <= j < out@.len() ==> #[trigger] params_view(out@)[j] == (
                name@,
                items@[j - base.len()]@,
                ),
        decreases n - i,
    {
        let ghost prev = out@;
        let entry = (String::from_str(name), items[i].clone());
        let ghost e = entry;
        out.push(entry);
        proof {
            assert(out@ == prev.push(e));
            assert forall|j: int| 0 <= j < base.len() implies params_view(out@)[j] == base[j] by {
                assert(out@[j] == prev[j]);
                assert(params_view(prev)[j] == base[j]);
            }
            assert forall|j: int|
                base.len() <= j < out@.len() implies #[trigger] params_view(out@)[j] == (
            name@, items@[j - base.len()]@) by {
                if j == out@.len() - 1 {
                    assert(out@[j] == e);
                } else {
                    assert(out@[j] == prev[j]);
                    assert(params_view(prev)[j] == (name@, items@[j - base.len()]@));
                }
            }
        }
        i = i + 1;
    }
    proof {
        assert(params_view(out@) =~= base + Seq::new(items@.len(), |i: int| (name@, items@[i]@)));
    }
}

/// Query builder for listing records.
#[derive(Debug)]
pub struct ListRecordsQuery {
    /// The table the listing reads.
    pub table: TableHandle,
    /// Ceiling on the total records a full execution returns.
    pub max_records: Option<u32>,
    /// How many records one page may carry.
    pub page_size: Option<u32>,
    /// The fields to return, in order; absent means all fields.
    pub fields: Option<Vec<String>>,
    /// An opaque filter formula, passed through unchanged.
    pub filter_by_formula: Option<String>,
    /// Opaque sort directives, forwarded one query pair each.
    pub sort: Option<Vec<String>>,
    /// A server-side view to read through.
    pub view: Option<String>,
    /// The continuation cursor to resume from.
    pub offset: Option<String>,
}

/// The query parameters a listing serializes: ceiling, page size, repeated
/// field selections, repeated sort directives, filter formula, view name,
/// and cursor, in that order.
pub open spec fn list_query_params(q: ListRecordsQuery) -> Seq<(Seq<char>, Seq<char>)> {
    opt_num_param("maxRecords"@, q.max_records) + opt_num_param("pageSize"@, q.page_size)
        + repeated_param("fields[]"@, q.fields) + repeated_param("sort[]"@, q.sort)
        + opt_text_param("filterByFormula"@, q.filter_by_formula) + opt_text_param("view"@, q.view)
        + opt_text_param("offset"@, q.offset)
}

impl TableHandle {
    /// Begin a record listing over this table, with no parameters set.
    pub fn list(&self) -> (q: ListRecordsQuery)
        ensures
            crate::config::config_eq(q.table.base.client.config, self.base.client.config),
            q.table.base.base_id@ == self.base.base_id@,
            q.table.table_name@ == self.table_name@,
            q.max_records == None::<u32>,
            q.page_size == None::<u32>,
            q.fields == None::<Vec<String>>,
            q.filter_by_formula == None::<String>,
            q.sort == None::<Vec<String>>,
            q.view == None::<String>,
            q.offset == None::<String>,
    {
        ListRecordsQuery {
            table: self.duplicate(),
            max_records: None,
            page_size: None,
            fields: None,
            filter_by_formula: None,
            sort: None,
            view: None,
            offset: None,
        }
    }
}

impl ListRecordsQuery {
    /// Set the ceiling on the total records a full execution returns.
    pub fn max_records(self, max_records: u32) -> (r: ListRecordsQuery)
        ensures
            r == (ListRecordsQuery { max_records: Some(max_records), ..self }),
    {
        ListRecordsQuery { max_records: Some(max_records), ..self }
    }

    /// Set the page size.
    pub fn page_size(self, page_size: u32) -> (r: ListRecordsQuery)
        ensures
            r == (ListRecordsQuery { page_size: Some(page_size), ..self }),
    {
        ListRecordsQuery { page_size: Some(page_size), ..self }
    }

    /// Select the fields to return, in order.
    pub fn fields(self, fields: &[&str]) -> (r: ListRecordsQuery)
        ensures
            r == (ListRecordsQuery { fields: r.fields, ..self }),
            r.fields is Some,
            strings_view(r.fields->0@) == Seq::new(fields@.len(), |i: int| fields@[i]@),
    {
        ListRecordsQuery { fields: Some(strs_to_strings(fields)), ..self }
    }

    /// Set the filter formula, passed through unchanged.
    pub fn filter_by_formula(self, formula: &str) -> (r: ListRecordsQuery)
        ensures
            r == (ListRecordsQuery { filter_by_formula: r.filter_by_formula, ..self }),
            r.filter_by_formula is Some,
            r.filter_by_formula->0@ == formula@,
    {
        ListRecordsQuery { filter_by_formula: Some(formula.to_owned()), ..self }
    }

    /// Set the sort directives.
    pub fn sort(self, sort: Vec<String>) -> (r: ListRecordsQuery)
        ensures
            r == (ListRecordsQuery { sort: Some(sort), ..self }),
    {
        ListRecordsQuery { sort: Some(sort), ..self }
    }

    /// Set the server-side view to read through.
    pub fn view(self, view: &str) -> (r: ListRecordsQuery)
        ensures
            r == (ListRecordsQuery { view: r.view, ..self }),
            r.view is Some,
            r.view->0@ == view@,
    {
        ListRecordsQuery { view: Some(view.to_owned()), ..self }
    }

    /// Set or clear the continuation cursor to resume from.
    pub fn offset(self, offset: Option<String>) -> (r: ListRecordsQuery)
        ensures
            r == (ListRecordsQuery { offset, ..self }),
    {
        ListRecordsQuery { offset, ..self }
    }

    /// Serialize this builder's parameters, exactly as `list_query_params`
    /// states them.
    pub fn to_query_params(&self) -> (r: Vec<(String, String)>)
        ensures
            params_view(r@) == list_query_params(*self),
    {
        let mut out: Vec<(String, String)> = Vec::new();
        match &self.max_records {
            Some(n) => out.push((String::from_str("maxRecords"), u32_to_string(*n))),
            None => (),
        }
        proof {
            assert(params_view(out@) =~= opt_num_param("maxRecords"@, self.max_records));
        }
        let ghost s1 = params_view(out@);
        match &self.page_size {
            Some(n) => out.push((String::from_str("pageSize"), u32_to_string(*n))),
            None => (),
        }
        proof {
            assert(params_view(out@) =~= s1 + opt_num_param("pageSize"@, self.page_size));
        }
        let ghost s2 = params_view(out@);
        match &self.fields {
            Some(items) => push_repeated(&mut out, "fields[]", items),
            None => (),
        }
        proof {
            assert(params_view(out@) =~= s2 + repeated_param("fields[]"@, self.fields));
        }
        let ghost s2b = params_view(out@);
        match &self.sort {
            Some(items) => push_repeated(&mut out, "sort[]", items),
            None => (),
        }
        proof {
            assert(params_view(out@) =~= s2b + repeated_param("sort[]"@, self.sort));
        }
        let ghost s3 = params_view(out@);
        match &self.filter_by_formula {
            Some(f) => out.push((String::from_str("filterByFormula"), f.clone())),
            None => (),
        }
        proof {
            assert(params_view(out@) =~= s3 + opt_text_param(
                "filterByFormula"@,
                self.filter_by_formula,
            ));
        }
        let ghost s4 = params_view(out@);
        match &self.view {
            Some(v) => out.push((String::from_str("view"), v.clone())),
            None => (),
        }
        proof {
            assert(params_view(out@) =~= s4 + opt_text_param("view"@, self.view));
        }
        let ghost s5 = params_view(out@);
        match &self.offset {
            Some(o) => out.push((String::from_str("offset"), o.clone())),
            None => (),
        }
        proof {
            assert(params_view(out@) =~= s5 + opt_text_param("offset"@, self.offset));
            assert(params_view(out@) =~= list_query_params(*self));
        }
        out
    }

    /// The request that fetches one page under this builder's parameters.
    pub fn request(&self) -> (r: RequestSpec)
        ensures
            r@.method == HttpMethod::Get,
            r@.url == self.table.collection_url(),
            r@.query == list_query_params(*self),
            r@.body == BodyView::Empty,
    {
        let url = self.table.build_url("");
        let query = self.to_query_params();
        proof {
            reveal_strlit("");
            assert(""@ =~= Seq::<char>::empty());
        }
        RequestSpec { method: HttpMethod::Get, url, query, body: RequestBody::Empty }
    }
}

/// Query builder for fetching the first matching record.
#[derive(Debug)]
pub struct FirstRecordQuery {
    /// The table the lookup reads.
    pub table: TableHandle,
    /// The fields to return; absent means all fields.
    pub fields: Option<Vec<String>>,
    /// An opaque filter formula, passed through unchanged.
    pub filter_by_formula: Option<String>,
    /// A server-side view to read through.
    pub view: Option<String>,
}

impl TableHandle {
    /// Begin a first-record lookup over this table.
    pub fn first(&self) -> (q: FirstRecordQuery)
        ensures
            crate::config::config_eq(q.table.base.client.config, self.base.client.config),
            q.table.base.base_id@ == self.base.base_id@,
            q.table.table_name@ == self.table_name@,
            q.fields == None::<Vec<String>>,
            q.filter_by_formula == None::<String>,
            q.view == None::<String>,
    {
        FirstRecordQuery {
            table: self.duplicate(),
            fields: None,
            filter_by_formula: None,
            view: None,
        }
    }
}

impl FirstRecordQuery {
    /// Select the fields to return, in order.
    pub fn fields(self, fields: &[&str]) -> (r: FirstRecordQuery)
        ensures
            r == (FirstRecordQuery { fields: r.fields, ..self }),
            r.fields is Some,
            strings_view(r.fields->0@) == Seq::new(fields@.len(), |i: int| fields@[i]@),
    {
        FirstRecordQuery { fields: Some(strs_to_strings(fields)), ..self }
    }

    /// Set the filter formula, passed through unchanged.
    pub fn filter_by_formula(self, formula: &str) -> (r: FirstRecordQuery)
        ensures
            r == (FirstRecordQuery { filter_by_formula: r.filter_by_formula, ..self }),
            r.filter_by_formula is Some,
            r.filter_by_formula->0@ == formula@,
    {
        FirstRecordQuery { filter_by_formula: Some(formula.to_owned()), ..self }
    }

    /// Set the server-side view to read through.
    pub fn view(self, view: &str) -> (r: FirstRecordQuery)
        ensures
            r == (FirstRecordQuery { view: r.view, ..self }),
            r.view is Some,
            r.view->0@ == view@,
    {
        FirstRecordQuery { view: Some(view.to_owned()), ..self }
    }

    /// The one-page listing this lookup runs: the same parameters with a
    /// ceiling of one record.
    pub fn page_query(self) -> (q: ListRecordsQuery)
        ensures
            q.table == self.table,
            q.max_records == Some(1u32),
            q.page_size == None::<u32>,
            q.fields == self.fields,
            q.filter_by_formula == self.filter_by_formula,
            q.sort == None::<Vec<String>>,
            q.view == self.view,
            q.offset == None::<String>,
    {
        ListRecordsQuery {
            table: self.table,
            max_records: Some(1),
            page_size: None,
            fields: self.fields,
            filter_by_formula: self.filter_by_formula,
            sort: None,
            view: self.view,
            offset: None,
        }
    }
}

/// The first record of a page, or the record-not-found error when the page
/// is empty.
pub fn first_from_records(records: Vec<Record>) -> (r: Result<Record, Error>)
    ensures
        r is Ok <==> records@.len() > 0,
        match r {
            Ok(rec) => rec@ == records@[0]@,
            Err(e) => match e {
                Error::RecordNotFound { record_id } => record_id@ == "first record"@,
                _ => false,
            },
        },
{
    let mut records = records;
    if records.len() == 0 {
        Err(Error::RecordNotFound { record_id: String::from_str("first record") })
    } else {
        Ok(records.remove(0))
    }
}

/// Query builder for a filtered, field-limited selection.
#[derive(Debug)]
pub struct SelectQueryBuilder {
    /// The table the selection reads.
    pub table: TableHandle,
    /// The fields to return; absent means all fields.
    pub fields: Option<Vec<String>>,
    /// An opaque filter formula, passed through unchanged.
    pub filter_by_formula: Option<String>,
    /// Sort directives as field/direction pairs; kept on the builder.
    pub sort: Option<Vec<(String, String)>>,
    /// A server-side view to read through.
    pub view: Option<String>,
    /// Ceiling on the total records returned.
    pub max_records: Option<u32>,
}

impl TableHandle {
    /// Begin a selection over this table.
    pub fn select(&self) -> (q: SelectQueryBuilder)
        ensures
            crate::config::config_eq(q.table.base.client.config, self.base.client.config),
            q.table.base.base_id@ == self.base.base_id@,
            q.table.table_name@ == self.table_name@,
            q.fields == None::<Vec<String>>,
            q.filter_by_formula == None::<String>,
            q.sort == None::<Vec<(String, String)>>,
            q.view == None::<String>,
            q.max_records == None::<u32>,
    {
        SelectQueryBuilder {
            table: self.duplicate(),
            fields: None,
            filter_by_formula: None,
            sort: None,
            view: None,
            max_records: None,
        }
    }
}

impl SelectQueryBuilder {
    /// Select the fields to return, in order.
    pub fn fields(self, fields: &[&str]) -> (r: SelectQueryBuilder)
        ensures
            r == (SelectQueryBuilder { fields: r.fields, ..self }),
            r.fields is Some,
            strings_view(r.fields->0@) == Seq::new(fields@.len(), |i: int| fields@[i]@),
    {
        SelectQueryBuilder { fields: Some(strs_to_strings(fields)), ..self }
    }

    /// Set the filter formula, passed through unchanged.
    pub fn filter_by_formula(self, formula: &str) -> (r: SelectQueryBuilder)
        ensures
            r == (SelectQueryBuilder { filter_by_formula: r.filter_by_formula, ..self }),
            r.filter_by_formula is Some,
            r.filter_by_formula->0@ == formula@,
    {
        SelectQueryBuilder { filter_by_formula: Some(formula.to_owned()), ..self }
    }

    /// Set the sort directives as field/direction pairs.
    pub fn sort(self, sort_spec: &[(&str, &str)]) -> (r: SelectQueryBuilder)
        ensures
            r == (SelectQueryBuilder { sort: r.sort, ..self }),
            r.sort is Some,
            params_view(r.sort->0@) == Seq::new(
                sort_spec@.len(),
                |i: int| (sort_spec@[i].0@, sort_spec@[i].1@),
            ),
    {
        let mut out: Vec<(String, String)> = Vec::new();
        let mut i: usize = 0;
        while i < sort_spec.len()
            invariant
                i <= sort_spec@.len(),
                out@.len() == i as int,
                forall|j: int| 0 <= j < i as int ==> #[trigger] out@[j].0@ == sort_spec@[j].0@
                    && out@[j].1@ == sort_spec@[j].1@,
            decreases sort_spec@.len() - i,
        {
            out.push((sort_spec[i].0.to_owned(), sort_spec[i].1.to_owned()));
            i = i + 1;
        }
        proof {
            assert(params_view(out@) =~= Seq::new(
                sort_spec@.len(),
                |i: int| (sort_spec@[i].0@, sort_spec@[i].1@),
            ));
        }
        SelectQueryBuilder { sort: Some(out), ..self }
    }

    /// Set the server-side view to read through.
    pub fn view(self, view: &str) -> (r: SelectQueryBuilder)
        ensures
            r == (SelectQueryBuilder { view: r.view, ..self }),
            r.view is Some,
            r.view->0@ == view@,
    {
        SelectQueryBuilder { view: Some(view.to_owned()), ..self }
    }

    /// Set the ceiling on the total records returned.
    pub fn max_records(self, max: u32) -> (r: SelectQueryBuilder)
        ensures
            r == (SelectQueryBuilder { max_records: Some(max), ..self }),
    {
        SelectQueryBuilder { max_records: Some(max), ..self }
    }

    /// The listing this selection runs: the same parameters, each sort pair
    /// forwarded as one "field direction" directive.
    pub fn page_query(self) -> (q: ListRecordsQuery)
        ensures
            q.table == self.table,
            q.max_records == self.max_records,
            q.page_size == None::<u32>,
            q.fields == self.fields,
            q.filter_by_formula == self.filter_by_formula,
            match (q.sort, self.sort) {
                (Some(a), Some(b)) => strings_view(a@) == Seq::new(
                    b@.len(),
                    |i: int| b@[i].0@ + " "@ + b@[i].1@,
                ),
                (None, None) => true,
                _ => false,
            },
            q.view == self.view,
            q.offset == None::<String>,
    {
        let sort = match &self.sort {
            Some(pairs) => {
                let mut out: Vec<String> = Vec::new();
                let mut i: usize = 0;
                while i < pairs.len()
                    invariant
                        i <= pairs@.len(),
                        out@.len() == i as int,
                        forall|j: int|
                            0 <= j < i as int ==> #[trigger] out@[j]@ == pairs@[j].0@ + " "@
                                + pairs@[j].1@,
                    decreases pairs@.len() - i,
                {
                    let directive = pairs[i].0.clone().concat(" ").concat(pairs[i].1.as_str());
                    out.push(directive);
                    i = i + 1;
                }
                proof {
                    assert(strings_view(out@) =~= Seq::new(
                        pairs@.len(),
                        |i: int| pairs@[i].0@ + " "@ + pairs@[i].1@,
                    ));
                }
                Some(out)
            },
            None => None,
        };
        ListRecordsQuery {
            table: self.table,
            max_records: self.max_records,
            page_size: None,
            fields: self.fields,
            filter_by_formula: self.filter_by_formula,
            sort,
            view: self.view,
            offset: None,
        }
    }
}

/// Query builder for creating one record.
#[derive(Debug)]
pub struct CreateRecordQuery {
    /// The table the record goes into.
    pub table: TableHandle,
    /// The fields of the new record; must be set before execution.
    pub fields: Option<FieldMap>,
    /// Whether the service may coerce submitted values.
    pub typecast: Option<bool>,
    /// The fields to return in the response; kept on the builder.
    pub return_fields: Option<Vec<String>>,
}

impl TableHandle {
    /// Begin a record creation over this table.
    pub fn create_record(&self) -> (q: CreateRecordQuery)
        ensures
            crate::config::config_eq(q.table.base.client.config, self.base.client.config),
            q.table.base.base_id@ == self.base.base_id@,
            q.table.table_name@ == self.table_name@,
            q.fields == None::<FieldMap>,
            q.typecast == None::<bool>,
            q.return_fields == None::<Vec<String>>,
    {
        CreateRecordQuery {
            table: self.duplicate(),
            fields: None,
            typecast: None,
            return_fields: None,
        }
    }
}

impl CreateRecordQuery {
    /// Set the fields of the new record.
    pub fn fields(self, fields: FieldMap) -> (r: CreateRecordQuery)
        ensures
            r == (CreateRecordQuery { fields: Some(fields), ..self }),
    {
        CreateRecordQuery { fields: Some(fields), ..self }
    }

    /// Set whether the service may coerce submitted values.
    pub fn typecast(self, typecast: bool) -> (r: CreateRecordQuery)
        ensures
            r == (CreateRecordQuery { typecast: Some(typecast), ..self }),
    {
        CreateRecordQuery { typecast: Some(typecast), ..self }
    }

    /// Select the fields to return in the response.
    pub fn return_fields(self, fields: &[&str]) -> (r: CreateRecordQuery)
        ensures
            r == (CreateRecordQuery { return_fields: r.return_fields, ..self }),
            r.return_fields is Some,
            strings_view(r.return_fields->0@) == Seq::new(fields@.len(), |i: int| fields@[i]@),
    {
        CreateRecordQuery { return_fields: Some(strs_to_strings(fields)), ..self }
    }

    /// The request this builder describes, or the missing-fields error when
    /// no fields were set.
    pub fn build(self) -> (r: Result<RequestSpec, Error>)
        ensures
            r is Ok <==> self.fields is Some,
            match r {
                Ok(req) => req@.method == HttpMethod::Post && req@.url
                    == self.table.collection_url() && req@.query == Seq::<
                    (Seq<char>, Seq<char>),
                >::empty() && req@.body == (BodyView::Single {
                    fields: self.fields->0@,
                    typecast: match self.typecast {
                        Some(t) => t,
                        None => false,
                    },
                }),
                Err(e) => match e {
                    Error::Api { status, message } => status == 400u16 && message@
                        == "Missing fields: fields must be specified for record creation"@,
                    _ => false,
                },
            },
    {
        match self.fields {
            Some(fields) => {
                let typecast = match self.typecast {
                    Some(t) => t,
                    None => false,
                };
                Ok(self.table.create_with_typecast_request(fields, typecast))
            },
            None => Err(
                Error::Api {
                    status: 400,
                    message: String::from_str(
                        "Missing fields: fields must be specified for record creation",
                    ),
                },
            ),
        }
    }
}

/// Query builder for updating one record.
#[derive(Debug)]
pub struct UpdateRecordQuery {
    /// The table the record lives in.
    pub table: TableHandle,
    /// The identifier of the record to update.
    pub record_id: String,
    /// The fields to write; must be set before execution.
    pub fields: Option<FieldMap>,
    /// Whether the service may coerce submitted values.
    pub typecast: Option<bool>,
    /// The fields to return in the response; kept on the builder.
    pub return_fields: Option<Vec<String>>,
}

impl TableHandle {
    /// Begin a record update over this table.
    pub fn update_record(&self, record_id: &str) -> (q: UpdateRecordQuery)
        ensures
            crate::config::config_eq(q.table.base.client.config, self.base.client.config),
            q.table.base.base_id@ == self.base.base_id@,
            q.table.table_name@ == self.table_name@,
            q.record_id@ == record_id@,
            q.fields == None::<FieldMap>,
            q.typecast == None::<bool>,
            q.return_fields == None::<Vec<String>>,
    {
        UpdateRecordQuery {
            table: self.duplicate(),
            record_id: record_id.to_owned(),
            fields: None,
            typecast: None,
            return_fields: None,
        }
    }
}

impl UpdateRecordQuery {
    /// Set the fields to write.
    pub fn fields(self, fields: FieldMap) -> (r: UpdateRecordQuery)
        ensures
            r == (UpdateRecordQuery { fields: Some(fields), ..self }),
    {
        UpdateRecordQuery { fields: Some(fields), ..self }
    }

    /// Set whether the service may coerce submitted values.
    pub fn typecast(self, typecast: bool) -> (r: UpdateRecordQuery)
        ensures
            r == (UpdateRecordQuery { typecast: Some(typecast), ..self }),
    {
        UpdateRecordQuery { typecast: Some(typecast), ..self }
    }

    /// Select the fields to return in the response.
    pub fn return_fields(self, fields: &[&str]) -> (r: UpdateRecordQuery)
        ensures
            r == (UpdateRecordQuery { return_fields: r.return_fields, ..self }),
            r.return_fields is Some,
            strings_view(r.return_fields->0@) == Seq::new(fields@.len(), |i: int| fields@[i]@),
    {
        UpdateRecordQuery { return_fields: Some(strs_to_strings(fields)), ..self }
    }

    /// The request this builder describes, or the missing-fields error when
    /// no fields were set.
    pub fn build(self) -> (r: Result<RequestSpec, Error>)
        ensures
            r is Ok <==> self.fields is Some,
            match r {
                Ok(req) => req@.method == HttpMethod::Patch && req@.url == table_url(
                    self.table.base.client.config.endpoint_url@,
                    self.table.base.base_id@,
                    self.table.table_name@,
                    self.record_id@,
                ) && req@.query == Seq::<(Seq<char>, Seq<char>)>::empty() && req@.body == (
                BodyView::Single {
                    fields: self.fields->0@,
                    typecast: match self.typecast {
                        Some(t) => t,
                        None => false,
                    },
                }),
                Err(e) => match e {
                    Error::Api { status, message } => status == 400u16 && message@
                        == "Missing fields: fields must be specified for record update"@,
                    _ => false,
                },
            },
    {
        match self.fields {
            Some(fields) => {
                let typecast = match self.typecast {
                    Some(t) => t,
                    None => false,
                };
                Ok(
                    self.table.update_with_typecast_request(
                        self.record_id.as_str(),
                        fields,
                        typecast,
                    ),
                )
            },
            None => Err(
                Error::Api {
                    status: 400,
                    message: String::from_str(
                        "Missing fields: fields must be specified for record update",
                    ),
                },
            ),
        }
    }
}

} // verus!

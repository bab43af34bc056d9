//! Client handles and request construction.
//!
//! A `Client` holds a configuration; `BaseHandle` and `TableHandle` scope it
//! to one base and one table. Every operation is described as a
//! `RequestSpec` value with an exact contract; the embedding program performs
//! the round trip. Batch mutations are validated here, before any request
//! exists: an empty or oversized batch never reaches the transport.

use vstd::prelude::*;

use crate::config::Config;
use crate::config::config_eq;
use crate::digits::dec_rep;
use crate::digits::u32_to_string;
use crate::error::Error;
use crate::fields::FieldMap;
use crate::models::RecordMutation;
use crate::request::BodyView;
use crate::request::HttpMethod;
use crate::request::MutationView;
use crate::request::RequestBody;
use crate::request::RequestSpec;
use crate::request::mutations_view;
use crate::request::params_view;
use crate::request::strings_view;

verus! {

/// The largest number of items one batch mutation may carry.
pub const MAX_BATCH_SIZE: usize = 10;

/// The result of percent-encoding a path segment; the encoding is a function
/// of the input characters alone.
pub uninterp spec fn url_encoded(s: Seq<char>) -> Seq<char>;

/// Relies on urlencoding::encode: percent-encodes every byte except ASCII
/// alphanumerics and '-', '_', '.', '~'; pure in its input.
#[verifier::external_body]
fn url_encode(s: &str) -> (r: String)
    ensures
        r@ == url_encoded(s@),
{
    urlencoding::encode(s).into_owned()
}

/// The URL of a table-scoped request: the endpoint, the base id, the
/// percent-encoded table name, and a final path segment, joined by slashes.
pub open spec fn table_url(
    endpoint: Seq<char>,
    base_id: Seq<char>,
    table_name: Seq<char>,
    path: Seq<char>,
) -> Seq<char> {
    endpoint + "/"@ + base_id + "/"@ + url_encoded(table_name) + "/"@ + path
}

/// Main client for the service: a configuration to run requests under.
#[derive(Debug)]
pub struct Client {
    /// The client's configuration.
    pub config: Config,
}

impl Client {
    /// Create a new client with the given API key and default settings.
    pub fn new(api_key: String) -> (r: Client)
        ensures
            r.config.api_key@ == api_key@,
            r.config.endpoint_url@ == "https://api.airtable.com/v0"@,
    {
        let config = Config::new(api_key);
        Client::from_config(config)
    }

    /// Create a new client from a configuration.
    pub fn from_config(config: Config) -> (r: Client)
        ensures
            r.config == config,
    {
        Client { config }
    }

    /// The client's configuration.
    pub fn config(&self) -> (r: &Config)
        ensures
            r == &self.config,
    {
        &self.config
    }

    /// A copy holding the same configuration values.
    pub fn duplicate(&self) -> (r: Client)
        ensures
            config_eq(r.config, self.config),
    {
        Client { config: self.config.duplicate() }
    }

    /// Scope this client to one base.
    pub fn base(&self, base_id: &str) -> (r: BaseHandle)
        ensures
            config_eq(r.client.config, self.config),
            r.base_id@ == base_id@,
    {
        BaseHandle { client: self.duplicate(), base_id: base_id.to_owned() }
    }

    /// The request that asks who the caller is.
    pub fn whoami_request(&self) -> (r: RequestSpec)
        ensures
            r@.method == HttpMethod::Get,
            r@.url == self.config.endpoint_url@ + "/meta/whoami"@,
            r@.query == Seq::<(Seq<char>, Seq<char>)>::empty(),
            r@.body == BodyView::Empty,
    {
        let url = self.config.endpoint_url.clone().concat("/meta/whoami");
        let r = RequestSpec {
            method: HttpMethod::Get,
            url,
            query: Vec::new(),
            body: RequestBody::Empty,
        };
        proof {
            assert(r@.query =~= Seq::<(Seq<char>, Seq<char>)>::empty());
        }
        r
    }

    /// The request that lists the caller's bases.
    pub fn bases_request(&self) -> (r: RequestSpec)
        ensures
            r@.method == HttpMethod::Get,
            r@.url == self.config.endpoint_url@ + "/meta/bases"@,
            r@.query == Seq::<(Seq<char>, Seq<char>)>::empty(),
            r@.body == BodyView::Empty,
    {
        let url = self.config.endpoint_url.clone().concat("/meta/bases");
        let r = RequestSpec {
            method: HttpMethod::Get,
            url,
            query: Vec::new(),
            body: RequestBody::Empty,
        };
        proof {
            assert(r@.query =~= Seq::<(Seq<char>, Seq<char>)>::empty());
        }
        r
    }
}

/// The error for a failure response: the parsed service message when there is
/// one, otherwise "HTTP " followed by the status code.
pub fn error_from_status(status: u16, parsed_message: Option<String>) -> (r: Error)
    ensures
        match parsed_message {
            Some(m) => r == (Error::Api { status, message: m }),
            None => match r {
                Error::Api { status: s, message } => s == status && message@ == "HTTP "@
                    + dec_rep(status as nat),
                _ => false,
            },
        },
{
    match parsed_message {
        Some(m) => Error::Api { status, message: m },
        None => {
            let message = String::from_str("HTTP ").concat(u32_to_string(status as u32).as_str());
            Error::Api { status, message }
        },
    }
}

/// Handle for operations on one base.
#[derive(Debug)]
pub struct BaseHandle {
    /// The owning client.
    pub client: Client,
    /// The base's identifier.
    pub base_id: String,
}

impl BaseHandle {
    /// Scope this base to one table.
    pub fn table(&self, table_name: &str) -> (r: TableHandle)
        ensures
            config_eq(r.base.client.config, self.client.config),
            r.base.base_id@ == self.base_id@,
            r.table_name@ == table_name@,
    {
        TableHandle { base: self.duplicate(), table_name: table_name.to_owned() }
    }

    /// The base's identifier.
    pub fn id(&self) -> (r: &str)
        ensures
            r@ == self.base_id@,
    {
        self.base_id.as_str()
    }

    /// A copy holding the same values.
    pub fn duplicate(&self) -> (r: BaseHandle)
        ensures
            config_eq(r.client.config, self.client.config),
            r.base_id@ == self.base_id@,
    {
        BaseHandle { client: self.client.duplicate(), base_id: self.base_id.clone() }
    }

    /// The request that fetches this base's schema.
    pub fn schema_request(&self) -> (r: RequestSpec)
        ensures
            r@.method == HttpMethod::Get,
            r@.url == self.client.config.endpoint_url@ + "/meta/bases/"@ + self.base_id@
                + "/tables"@,
            r@.query == Seq::<(Seq<char>, Seq<char>)>::empty(),
            r@.body == BodyView::Empty,
    {
        let url = self.client.config.endpoint_url.clone().concat("/meta/bases/").concat(
            self.base_id.as_str(),
        ).concat("/tables");
        let r = RequestSpec {
            method: HttpMethod::Get,
            url,
            query: Vec::new(),
            body: RequestBody::Empty,
        };
        proof {
            assert(r@.query =~= Seq::<(Seq<char>, Seq<char>)>::empty());
        }
        r
    }
}

/// Handle for operations on one table.
#[derive(Debug)]
pub struct TableHandle {
    /// The owning base handle.
    pub base: BaseHandle,
    /// The table's name, as the caller gave it (unencoded).
    pub table_name: String,
}

/// The views of a sequence of field mappings taken as creation items,
/// elementwise: no identifier, just the fields.
pub open spec fn creation_items_view(s: Seq<FieldMap>) -> Seq<MutationView> {
    Seq::new(s.len(), |i: int| MutationView { id: None, fields: s[i]@ })
}

impl TableHandle {
    /// The table's name.
    pub fn name(&self) -> (r: &str)
        ensures
            r@ == self.table_name@,
    {
        self.table_name.as_str()
    }

    /// A copy holding the same values.
    pub fn duplicate(&self) -> (r: TableHandle)
        ensures
            config_eq(r.base.client.config, self.base.client.config),
            r.base.base_id@ == self.base.base_id@,
            r.table_name@ == self.table_name@,
    {
        TableHandle { base: self.base.duplicate(), table_name: self.table_name.clone() }
    }

    /// Build the URL of a table-scoped request: the endpoint, the base id,
    /// the percent-encoded table name, and `path`, joined by slashes.
    pub fn build_url(&self, path: &str) -> (r: String)
        ensures
            r@ == table_url(
                self.base.client.config.endpoint_url@,
                self.base.base_id@,
                self.table_name@,
                path@,
            ),
    {
        let encoded = url_encode(self.table_name.as_str());
        let r = self.base.client.config.endpoint_url.clone().concat("/").concat(
            self.base.base_id.as_str(),
        ).concat("/").concat(encoded.as_str()).concat("/").concat(path);
        proof {
            assert(r@ =~= table_url(
                self.base.client.config.endpoint_url@,
                self.base.base_id@,
                self.table_name@,
                path@,
            ));
        }
        r
    }

    /// The URL of this table's collection endpoint.
    pub open spec fn collection_url(&self) -> Seq<char> {
        table_url(
            self.base.client.config.endpoint_url@,
            self.base.base_id@,
            self.table_name@,
            Seq::<char>::empty(),
        )
    }

    /// The request that reads one record by its identifier.
    pub fn get_request(&self, record_id: &str) -> (r: RequestSpec)
        ensures
            r@.method == HttpMethod::Get,
            r@.url == table_url(
                self.base.client.config.endpoint_url@,
                self.base.base_id@,
                self.table_name@,
                record_id@,
            ),
            r@.query == Seq::<(Seq<char>, Seq<char>)>::empty(),
            r@.body == BodyView::Empty,
    {
        let r = RequestSpec {
            method: HttpMethod::Get,
            url: self.build_url(record_id),
            query: Vec::new(),
            body: RequestBody::Empty,
        };
        proof {
            assert(r@.query =~= Seq::<(Seq<char>, Seq<char>)>::empty());
        }
        r
    }

    /// The request that creates one record (no type coercion).
    pub fn create_request(&self, fields: FieldMap) -> (r: RequestSpec)
        ensures
            r@.method == HttpMethod::Post,
            r@.url == self.collection_url(),
            r@.query == Seq::<(Seq<char>, Seq<char>)>::empty(),
            r@.body == (BodyView::Single { fields: fields@, typecast: false }),
    {
        self.create_with_typecast_request(fields, false)
    }

    /// The request that creates one record, with the typecast flag passed
    /// through verbatim.
    pub fn create_with_typecast_request(&self, fields: FieldMap, typecast: bool) -> (r: RequestSpec)
        ensures
            r@.method == HttpMethod::Post,
            r@.url == self.collection_url(),
            r@.query == Seq::<(Seq<char>, Seq<char>)>::empty(),
            r@.body == (BodyView::Single { fields: fields@, typecast }),
    {
        let r = RequestSpec {
            method: HttpMethod::Post,
            url: self.build_url(""),
            query: Vec::new(),
            body: RequestBody::Single { fields, typecast },
        };
        proof {
            reveal_strlit("");
            assert(r@.query =~= Seq::<(Seq<char>, Seq<char>)>::empty());
            assert(""@ =~= Seq::<char>::empty());
        }
        r
    }

    /// The request that updates one record (no type coercion).
    pub fn update_request(&self, record_id: &str, fields: FieldMap) -> (r: RequestSpec)
        ensures
            r@.method == HttpMethod::Patch,
            r@.url == table_url(
                self.base.client.config.endpoint_url@,
                self.base.base_id@,
                self.table_name@,
                record_id@,
            ),
            r@.query == Seq::<(Seq<char>, Seq<char>)>::empty(),
            r@.body == (BodyView::Single { fields: fields@, typecast: false }),
    {
        self.update_with_typecast_request(record_id, fields, false)
    }

    /// The request that updates one record, with the typecast flag passed
    /// through verbatim.
    pub fn update_with_typecast_request(
        &self,
        record_id: &str,
        fields: FieldMap,
        typecast: bool,
    ) -> (r: RequestSpec)
        ensures
            r@.method == HttpMethod::Patch,
            r@.url == table_url(
                self.base.client.config.endpoint_url@,
                self.base.base_id@,
                self.table_name@,
                record_id@,
            ),
            r@.query == Seq::<(Seq<char>, Seq<char>)>::empty(),
            r@.body == (BodyView::Single { fields: fields@, typecast }),
    {
        let r = RequestSpec {
            method: HttpMethod::Patch,
            url: self.build_url(record_id),
            query: Vec::new(),
            body: RequestBody::Single { fields, typecast },
        };
        proof {
            assert(r@.query =~= Seq::<(Seq<char>, Seq<char>)>::empty());
        }
        r
    }

    /// The request that deletes one record.
    pub fn delete_request(&self, record_id: &str) -> (r: RequestSpec)
        ensures
            r@.method == HttpMethod::Delete,
            r@.url == table_url(
                self.base.client.config.endpoint_url@,
                self.base.base_id@,
                self.table_name@,
                record_id@,
            ),
            r@.query == Seq::<(Seq<char>, Seq<char>)>::empty(),
            r@.body == BodyView::Empty,
    {
        let r = RequestSpec {
            method: HttpMethod::Delete,
            url: self.build_url(record_id),
            query: Vec::new(),
            body: RequestBody::Empty,
        };
        proof {
            assert(r@.query =~= Seq::<(Seq<char>, Seq<char>)>::empty());
        }
        r
    }

    /// The request that creates a batch of records, or the batch-bounds
    /// error. The batch is accepted exactly when it holds between one and
    /// ten items; nothing is sent otherwise.
    pub fn batch_create_request(&self, records_data: Vec<FieldMap>) -> (r: Result<
        RequestSpec,
        Error,
    >)
        ensures
            r is Ok <==> 1 <= records_data@.len() <= MAX_BATCH_SIZE,
            match r {
                Ok(req) => req@.method == HttpMethod::Post && req@.url == self.collection_url()
                    && req@.query == Seq::<(Seq<char>, Seq<char>)>::empty() && req@.body == (
                BodyView::Batch { records: creation_items_view(records_data@), typecast: false }),
                Err(e) => is_batch_bounds_error(e, records_data@.len(), "create"@),
            },
    {
        self.batch_create_with_options_request(records_data, false)
    }

    /// The request that creates a batch of records with the typecast flag
    /// passed through verbatim, or the batch-bounds error.
    pub fn batch_create_with_options_request(
        &self,
        records_data: Vec<FieldMap>,
        typecast: bool,
    ) -> (r: Result<RequestSpec, Error>)
        ensures
            r is Ok <==> 1 <= records_data@.len() <= MAX_BATCH_SIZE,
            match r {
                Ok(req) => req@.method == HttpMethod::Post && req@.url == self.collection_url()
                    && req@.query == Seq::<(Seq<char>, Seq<char>)>::empty() && req@.body == (
                BodyView::Batch { records: creation_items_view(records_data@), typecast }),
                Err(e) => is_batch_bounds_error(e, records_data@.len(), "create"@),
            },
    {
        if records_data.len() == 0 {
            return Err(Error::InvalidBatch(empty_batch_message("create")));
        }
        if records_data.len() > MAX_BATCH_SIZE {
            return Err(Error::InvalidBatch(oversized_batch_message()));
        }
        let ghost data = records_data@;
        let mut records_data = records_data;
        let mut records: Vec<RecordMutation> = Vec::new();
        let n = records_data.len();
        let mut i: usize = 0;
        while i < n
            invariant
                records_data@ == data.skip(i as int),
                n == data.len(),
                i <= n,
                records@.len() == i as int,
                forall|j: int| 0 <= j < i as int ==> #[trigger] records@[j]@ == (MutationView {
                    id: None,
                    fields: data[j]@,
                }),
            decreases n - i,
        {
            let fields = records_data.remove(0);
            proof {
                assert(fields == data[i as int]);
                assert(records_data@ =~= data.skip(i as int + 1));
            }
            records.push(RecordMutation { id: None, fields });
            i = i + 1;
        }
        proof {
            reveal_strlit("");
            assert(""@ =~= Seq::<char>::empty());
            assert(mutations_view(records@) =~= creation_items_view(data));
        }
        let r = RequestSpec {
            method: HttpMethod::Post,
            url: self.build_url(""),
            query: Vec::new(),
            body: RequestBody::Batch { records, typecast },
        };
        proof {
            assert(r@.query =~= Seq::<(Seq<char>, Seq<char>)>::empty());
        }
        Ok(r)
    }

    /// The request that updates a batch of records, or the batch-bounds
    /// error.
    pub fn batch_update_request(&self, records_data: Vec<RecordMutation>) -> (r: Result<
        RequestSpec,
        Error,
    >)
        ensures
            r is Ok <==> 1 <= records_data@.len() <= MAX_BATCH_SIZE,
            match r {
                Ok(req) => req@.method == HttpMethod::Patch && req@.url == self.collection_url()
                    && req@.query == Seq::<(Seq<char>, Seq<char>)>::empty() && req@.body == (
                BodyView::Batch { records: mutations_view(records_data@), typecast: false }),
                Err(e) => is_batch_bounds_error(e, records_data@.len(), "update"@),
            },
    {
        if records_data.len() == 0 {
            return Err(Error::InvalidBatch(empty_batch_message("update")));
        }
        if records_data.len() > MAX_BATCH_SIZE {
            return Err(Error::InvalidBatch(oversized_batch_message()));
        }
        let r = RequestSpec {
            method: HttpMethod::Patch,
            url: self.build_url(""),
            query: Vec::new(),
            body: RequestBody::Batch { records: records_data, typecast: false },
        };
        proof {
            reveal_strlit("");
            assert(""@ =~= Seq::<char>::empty());
            assert(r@.query =~= Seq::<(Seq<char>, Seq<char>)>::empty());
        }
        Ok(r)
    }

    /// The request that upserts a batch of records: the items plus the
    /// fields the service merges on; or the batch-bounds error. The service
    /// decides create-versus-update per item; this side does not.
    pub fn batch_upsert_request(
        &self,
        records_data: Vec<RecordMutation>,
        fields_to_merge_on: Vec<String>,
    ) -> (r: Result<RequestSpec, Error>)
        ensures
            r is Ok <==> 1 <= records_data@.len() <= MAX_BATCH_SIZE,
            match r {
                Ok(req) => req@.method == HttpMethod::Patch && req@.url == self.collection_url()
                    && req@.query == Seq::<(Seq<char>, Seq<char>)>::empty() && req@.body == (
                BodyView::Upsert {
                    records: mutations_view(records_data@),
                    fields_to_merge_on: strings_view(fields_to_merge_on@),
                    typecast: false,
                }),
                Err(e) => is_batch_bounds_error(e, records_data@.len(), "upsert"@),
            },
    {
        if records_data.len() == 0 {
            return Err(Error::InvalidBatch(empty_batch_message("upsert")));
        }
        if records_data.len() > MAX_BATCH_SIZE {
            return Err(Error::InvalidBatch(oversized_batch_message()));
        }
        let r = RequestSpec {
            method: HttpMethod::Patch,
            url: self.build_url(""),
            query: Vec::new(),
            body: RequestBody::Upsert {
                records: records_data,
                fields_to_merge_on,
                typecast: false,
            },
        };
        proof {
            reveal_strlit("");
            assert(""@ =~= Seq::<char>::empty());
            assert(r@.query =~= Seq::<(Seq<char>, Seq<char>)>::empty());
        }
        Ok(r)
    }

    /// The request that deletes a batch of records: their identifiers go
    /// into repeated query parameters; or the batch-bounds error.
    pub fn batch_delete_request(&self, record_ids: &Vec<String>) -> (r: Result<RequestSpec, Error>)
        ensures
            r is Ok <==> 1 <= record_ids@.len() <= MAX_BATCH_SIZE,
            match r {
                Ok(req) => req@.method == HttpMethod::Delete && req@.url == self.collection_url()
                    && req@.query == Seq::new(
                    record_ids@.len(),
                    |i: int| ("records[]"@, record_ids@[i]@),
                ) && req@.body == BodyView::Empty,
                Err(e) => is_batch_bounds_error(e, record_ids@.len(), "delete"@),
            },
    {
        if record_ids.len() == 0 {
            return Err(Error::InvalidBatch(empty_batch_message("delete")));
        }
        if record_ids.len() > MAX_BATCH_SIZE {
            return Err(Error::InvalidBatch(oversized_batch_message()));
        }
        let mut query: Vec<(String, String)> = Vec::new();
        let n = record_ids.len();
        let mut i: usize = 0;
        while i < n
            invariant
                n == record_ids@.len(),
                i <= n,
                query@.len() == i as int,
                forall|j: int| 0 <= j < i as int ==> #[trigger] query@[j].0@ == "records[]"@
                    && query@[j].1@ == record_ids@[j]@,
            decreases n - i,
        {
            query.push((String::from_str("records[]"), record_ids[i].clone()));
            i = i + 1;
        }
        proof {
            reveal_strlit("");
            assert(""@ =~= Seq::<char>::empty());
            assert(params_view(query@) =~= Seq::new(
                record_ids@.len(),
                |i: int| ("records[]"@, record_ids@[i]@),
            ));
        }
        let r = RequestSpec {
            method: HttpMethod::Delete,
            url: self.build_url(""),
            query,
            body: RequestBody::Empty,
        };
        Ok(r)
    }
}

/// Whether `e` is the batch-bounds error for a batch of `len` items of the
/// operation named `op`: the empty-batch message below one item, the
/// oversized-batch message above ten.
pub open spec fn is_batch_bounds_error(e: Error, len: nat, op: Seq<char>) -> bool {
    match e {
        Error::InvalidBatch(m) => if len == 0 {
            m@ == "Cannot "@ + op + " empty batch: the batch cannot be empty"@
        } else {
            len > MAX_BATCH_SIZE && m@ == "Batch size too large: Maximum 10 records per batch"@
        },
        _ => false,
    }
}

/// The message of an empty-batch error.
fn empty_batch_message(op: &str) -> (r: String)
    ensures
        r@ == "Cannot "@ + op@ + " empty batch: the batch cannot be empty"@,
{
    let r = String::from_str("Cannot ").concat(op).concat(
        " empty batch: the batch cannot be empty",
    );
    proof {
        assert(r@ =~= "Cannot "@ + op@ + " empty batch: the batch cannot be empty"@);
    }
    r
}

/// The message of an oversized-batch error.
fn oversized_batch_message() -> (r: String)
    ensures
        r@ == "Batch size too large: Maximum 10 records per batch"@,
{
    String::from_str("Batch size too large: Maximum 10 records per batch")
}

} // verus!

use rsairtable::Client;
use rsairtable::Config;
use rsairtable::Error;
use rsairtable::FieldMap;
use rsairtable::FieldValue;
use rsairtable::Record;
use rsairtable::client::error_from_status;
use rsairtable::digits::u32_to_string;
use rsairtable::query::first_from_records;
use rsairtable::request::HttpMethod;

#[test]
fn test_client_creation() {
    let client = Client::new("test_key".to_string());
    assert_eq!(client.config().api_key, "test_key");
}

#[test]
fn test_base_handle() {
    let client = Client::new("test_key".to_string());
    let base = client.base("appTestBase123");
    assert_eq!(base.id(), "appTestBase123");
}

#[test]
fn test_table_handle() {
    let client = Client::new("test_key".to_string());
    let table = client.base("appTestBase123").table("TestTable");
    assert_eq!(table.name(), "TestTable");
}

#[test]
fn config_defaults_and_builders() {
    let config = Config::new("key".to_string())
        .with_verbose(true)
        .with_timeout(60)
        .with_max_retries(5)
        .with_endpoint_url("https://api.custom.airtable.com/v0".to_string());
    assert_eq!(config.api_key, "key");
    assert_eq!(config.endpoint_url, "https://api.custom.airtable.com/v0");
    assert_eq!(config.timeout_seconds, 60);
    assert_eq!(config.max_retries, 5);
    assert!(config.verbose);

    let fresh = Config::new("key".to_string());
    assert_eq!(fresh.endpoint_url, "https://api.airtable.com/v0");
    assert_eq!(fresh.timeout_seconds, 30);
    assert_eq!(fresh.max_retries, 3);
    assert!(!fresh.verbose);
}

#[test]
fn table_urls_percent_encode_the_table_name() {
    let client = Client::new("test_key".to_string());
    let table = client.base("appBase").table("My Table");
    let url = table.build_url("rec1");
    assert_eq!(url, "https://api.airtable.com/v0/appBase/My%20Table/rec1");
}

#[test]
fn meta_requests_target_the_documented_endpoints() {
    let client = Client::new("test_key".to_string());
    assert_eq!(client.whoami_request().url, "https://api.airtable.com/v0/meta/whoami");
    assert_eq!(client.bases_request().url, "https://api.airtable.com/v0/meta/bases");
    let base = client.base("appBase");
    assert_eq!(base.schema_request().url, "https://api.airtable.com/v0/meta/bases/appBase/tables");
}

#[test]
fn list_request_serializes_every_parameter_in_order() {
    let client = Client::new("test_key".to_string());
    let query = client
        .base("appBase")
        .table("Tasks")
        .list()
        .max_records(50)
        .page_size(10)
        .fields(&["Name", "Status"])
        .filter_by_formula("NOT({Name} = '')")
        .sort(vec!["Name asc".to_string(), "Status desc".to_string()])
        .view("Grid view")
        .offset(Some("itrABC/recXYZ".to_string()));
    let req = query.request();
    assert_eq!(req.method, HttpMethod::Get);
    assert_eq!(req.url, "https://api.airtable.com/v0/appBase/Tasks/");
    assert_eq!(
        req.query,
        vec![
            ("maxRecords".to_string(), "50".to_string()),
            ("pageSize".to_string(), "10".to_string()),
            ("fields[]".to_string(), "Name".to_string()),
            ("fields[]".to_string(), "Status".to_string()),
            ("sort[]".to_string(), "Name asc".to_string()),
            ("sort[]".to_string(), "Status desc".to_string()),
            ("filterByFormula".to_string(), "NOT({Name} = '')".to_string()),
            ("view".to_string(), "Grid view".to_string()),
            ("offset".to_string(), "itrABC/recXYZ".to_string()),
        ]
    );
}

#[test]
fn select_builder_carries_its_parameters_into_the_listing() {
    let client = Client::new("test_key".to_string());
    let query = client
        .base("appBase")
        .table("Tasks")
        .select()
        .fields(&["Name"])
        .filter_by_formula("{Done} = 0")
        .sort(&[("Name", "asc")])
        .max_records(20)
        .page_query();
    assert_eq!(query.max_records, Some(20));
    assert_eq!(query.fields, Some(vec!["Name".to_string()]));
    assert_eq!(query.filter_by_formula, Some("{Done} = 0".to_string()));
    assert_eq!(query.sort, Some(vec!["Name asc".to_string()]));
}

#[test]
fn first_record_query_caps_the_listing_at_one() {
    let client = Client::new("test_key".to_string());
    let query = client
        .base("appBase")
        .table("Tasks")
        .first()
        .filter_by_formula("{Name} = 'x'")
        .page_query();
    assert_eq!(query.max_records, Some(1));
}

#[test]
fn first_from_records_returns_the_first_or_not_found() {
    let mut fields = FieldMap::new();
    fields.insert("Name".to_string(), FieldValue::Str("One".to_string()));
    let rec = Record::new("rec1".to_string(), "2024-01-01T00:00:00Z".to_string(), fields);
    let got = first_from_records(vec![rec]).unwrap();
    assert_eq!(got.id, "rec1");

    match first_from_records(vec![]) {
        Err(Error::RecordNotFound { record_id }) => assert_eq!(record_id, "first record"),
        other => panic!("expected a record-not-found error, got {:?}", other),
    }
}

#[test]
fn create_record_builder_requires_fields() {
    let client = Client::new("test_key".to_string());
    let table = client.base("appBase").table("Tasks");
    match table.create_record().build() {
        Err(Error::Api { status, .. }) => assert_eq!(status, 400),
        other => panic!("expected a missing-fields error, got {:?}", other),
    }
    let mut fields = FieldMap::new();
    fields.insert("Name".to_string(), FieldValue::Str("One".to_string()));
    let req = table.create_record().fields(fields).typecast(true).build().unwrap();
    assert_eq!(req.method, HttpMethod::Post);
}

#[test]
fn update_record_builder_targets_the_record() {
    let client = Client::new("test_key".to_string());
    let table = client.base("appBase").table("Tasks");
    let mut fields = FieldMap::new();
    fields.insert("Name".to_string(), FieldValue::Str("Two".to_string()));
    let req = table.update_record("rec9").fields(fields).build().unwrap();
    assert_eq!(req.method, HttpMethod::Patch);
    assert!(req.url.ends_with("/Tasks/rec9"));
}

#[test]
fn decimal_rendering_is_exact() {
    assert_eq!(u32_to_string(0), "0");
    assert_eq!(u32_to_string(42), "42");
    assert_eq!(u32_to_string(100), "100");
    assert_eq!(u32_to_string(4294967295), "4294967295");
}

#[test]
fn failure_responses_become_api_errors() {
    match error_from_status(422, Some("Unknown field".to_string())) {
        Error::Api { status, message } => {
            assert_eq!(status, 422);
            assert_eq!(message, "Unknown field");
        }
        other => panic!("expected an api error, got {:?}", other),
    }
    match error_from_status(404, None) {
        Error::Api { status, message } => {
            assert_eq!(status, 404);
            assert_eq!(message, "HTTP 404");
        }
        other => panic!("expected an api error, got {:?}", other),
    }
}

#[test]
fn field_map_insert_and_get_behave_like_a_mapping() {
    let mut map = FieldMap::new();
    assert_eq!(map.len(), 0);
    assert!(map.get("a").is_none());
    map.insert("a".to_string(), FieldValue::Int(1));
    map.insert("b".to_string(), FieldValue::Bool(true));
    assert_eq!(map.len(), 2);
    assert_eq!(map.get("a"), Some(&FieldValue::Int(1)));
    map.insert("a".to_string(), FieldValue::Int(7));
    assert_eq!(map.len(), 2);
    assert_eq!(map.get("a"), Some(&FieldValue::Int(7)));
    assert_eq!(map.get("missing"), None);
}

#[test]
fn error_constructors_build_the_matching_variants() {
    assert_eq!(Error::config("no key".to_string()), Error::Config("no key".to_string()));
    assert_eq!(
        Error::api(500, "boom".to_string()),
        Error::Api { status: 500, message: "boom".to_string() }
    );
    assert_eq!(Error::rate_limit(250), Error::RateLimit { retry_after_ms: 250 });
    assert_eq!(
        Error::record_not_found("rec1".to_string()),
        Error::RecordNotFound { record_id: "rec1".to_string() }
    );
    assert_eq!(
        Error::table_not_found("T".to_string()),
        Error::TableNotFound { table_name: "T".to_string() }
    );
    assert_eq!(
        Error::base_not_found("app1".to_string()),
        Error::BaseNotFound { base_id: "app1".to_string() }
    );
    assert_eq!(
        Error::auth("denied".to_string()),
        Error::Auth { message: "denied".to_string() }
    );
}

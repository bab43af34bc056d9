use rsairtable::Client;
use rsairtable::FieldMap;
use rsairtable::FieldValue;
use rsairtable::ListRecordsResponse;
use rsairtable::Record;
use rsairtable::paginate::Paginator;
use rsairtable::paginate::ServerModel;
use rsairtable::paginate::execute_all;

fn record(id: &str, status: &str) -> Record {
    let mut fields = FieldMap::new();
    fields.insert("Status".to_string(), FieldValue::Str(status.to_string()));
    Record::new(id.to_string(), "2024-01-01T00:00:00Z".to_string(), fields)
}

fn server_with(ids: &[&str]) -> ServerModel {
    ServerModel { records: ids.iter().map(|id| record(id, "Active")).collect() }
}

fn ids_of(records: &[Record]) -> Vec<String> {
    records.iter().map(|r| r.id.clone()).collect()
}

#[test]
fn full_execute_pages_of_two_over_five_records() {
    // A filtered listing matching five records, fetched two at a time:
    // three page requests, all five records back in server order.
    let server = server_with(&["rec1", "rec2", "rec3", "rec4", "rec5"]);
    let client = Client::new("test_key".to_string());
    let query = client
        .base("appBase")
        .table("Matters")
        .list()
        .filter_by_formula("Status='Active'")
        .page_size(2);
    let params = query.to_query_params();
    assert_eq!(
        params,
        vec![
            ("pageSize".to_string(), "2".to_string()),
            ("filterByFormula".to_string(), "Status='Active'".to_string()),
        ]
    );

    let (records, requests) = execute_all(&server, 2, None);
    assert_eq!(requests, 3);
    assert_eq!(ids_of(&records), vec!["rec1", "rec2", "rec3", "rec4", "rec5"]);
}

#[test]
fn full_execute_truncates_at_the_ceiling() {
    let server = server_with(&["rec1", "rec2", "rec3", "rec4", "rec5"]);
    let (records, _) = execute_all(&server, 2, Some(3));
    assert_eq!(ids_of(&records), vec!["rec1", "rec2", "rec3"]);

    let (records, _) = execute_all(&server, 2, Some(10));
    assert_eq!(records.len(), 5);
}

#[test]
fn full_execute_on_empty_table_makes_one_request() {
    let server = server_with(&[]);
    let (records, requests) = execute_all(&server, 100, None);
    assert_eq!(records.len(), 0);
    assert_eq!(requests, 1);
}

#[test]
fn two_runs_over_unchanged_data_agree() {
    let server = server_with(&["recA", "recB", "recC"]);
    let (first, _) = execute_all(&server, 2, None);
    let (second, _) = execute_all(&server, 2, None);
    assert_eq!(ids_of(&first), ids_of(&second));
}

#[test]
fn paginator_stops_without_cursor_and_truncates() {
    let mut pager = Paginator::new(Some(2));
    pager.step(ListRecordsResponse {
        records: vec![record("rec1", "Active"), record("rec2", "Active"), record("rec3", "Active")],
        offset: Some("next".to_string()),
    });
    // the ceiling was reached inside the first page: truncated and done
    assert!(pager.done);
    assert_eq!(ids_of(&pager.collected), vec!["rec1", "rec2"]);

    let mut pager = Paginator::new(None);
    pager.step(ListRecordsResponse {
        records: vec![record("rec1", "Active")],
        offset: None,
    });
    assert!(pager.done);
    assert_eq!(ids_of(&pager.collected), vec!["rec1"]);
}

#[test]
fn iterator_stops_on_absent_cursor() {
    let client = Client::new("test_key".to_string());
    let mut it = client.base("appBase").table("T").iterate().page_size(2).build();
    assert!(!it.is_exhausted());
    assert!(it.next_page_query().is_some());
    it.accept_page(&vec![record("rec1", "A"), record("rec2", "A")], None);
    assert!(it.is_exhausted());
    assert!(it.next_page_query().is_none());
}

#[test]
fn iterator_stops_on_short_page_even_with_cursor() {
    let client = Client::new("test_key".to_string());
    let mut it = client.base("appBase").table("T").iterate().page_size(2).build();
    it.accept_page(&vec![record("rec1", "A")], Some("cursor".to_string()));
    assert!(it.is_exhausted());
}

#[test]
fn iterator_continues_on_full_page_with_cursor() {
    let client = Client::new("test_key".to_string());
    let mut it = client.base("appBase").table("T").iterate().page_size(2).build();
    it.accept_page(
        &vec![record("rec1", "A"), record("rec2", "A")],
        Some("cursor".to_string()),
    );
    assert!(!it.is_exhausted());
    let query = it.next_page_query().unwrap();
    assert_eq!(query.offset, Some("cursor".to_string()));
}

#[test]
fn iterator_is_exhausted_for_good_after_an_error() {
    let client = Client::new("test_key".to_string());
    let mut it = client.base("appBase").table("T").iterate().build();
    it.accept_error();
    assert!(it.is_exhausted());
    assert!(it.next_page_query().is_none());
}

#[test]
fn iterator_defaults_to_one_hundred_per_page() {
    let client = Client::new("test_key".to_string());
    let it = client.base("appBase").table("T").iterate().build();
    assert_eq!(it.page_size, 100);
}

use rsairtable::Client;
use rsairtable::Error;
use rsairtable::FieldMap;
use rsairtable::FieldValue;
use rsairtable::Record;
use rsairtable::RecordMutation;
use rsairtable::TableHandle;
use rsairtable::paginate::ServerModel;
use rsairtable::request::HttpMethod;
use rsairtable::request::RequestBody;

fn table() -> TableHandle {
    Client::new("test_key".to_string()).base("appBase").table("Tasks")
}

fn fields_named(name: &str) -> FieldMap {
    let mut fields = FieldMap::new();
    fields.insert("Name".to_string(), FieldValue::Str(name.to_string()));
    fields
}

fn creation_batch(n: usize) -> Vec<FieldMap> {
    (0..n).map(|i| fields_named(&format!("Item {}", i))).collect()
}

fn mutation_batch(n: usize) -> Vec<RecordMutation> {
    (0..n)
        .map(|i| RecordMutation { id: None, fields: fields_named(&format!("Item {}", i)) })
        .collect()
}

fn id_batch(n: usize) -> Vec<String> {
    (0..n).map(|i| format!("rec{:03}", i)).collect()
}

#[test]
fn batch_create_rejects_empty_and_oversized_batches() {
    let t = table();
    assert!(matches!(t.batch_create_request(creation_batch(0)), Err(Error::InvalidBatch(_))));
    assert!(matches!(t.batch_create_request(creation_batch(11)), Err(Error::InvalidBatch(_))));
    assert!(t.batch_create_request(creation_batch(1)).is_ok());
    assert!(t.batch_create_request(creation_batch(10)).is_ok());
}

#[test]
fn batch_update_rejects_empty_and_oversized_batches() {
    let t = table();
    assert!(matches!(t.batch_update_request(mutation_batch(0)), Err(Error::InvalidBatch(_))));
    assert!(matches!(t.batch_update_request(mutation_batch(11)), Err(Error::InvalidBatch(_))));
    assert!(t.batch_update_request(mutation_batch(1)).is_ok());
    assert!(t.batch_update_request(mutation_batch(10)).is_ok());
}

#[test]
fn batch_upsert_rejects_empty_and_oversized_batches() {
    let t = table();
    let merge = vec!["Name".to_string()];
    assert!(matches!(
        t.batch_upsert_request(mutation_batch(0), merge.clone()),
        Err(Error::InvalidBatch(_))
    ));
    assert!(matches!(
        t.batch_upsert_request(mutation_batch(11), merge.clone()),
        Err(Error::InvalidBatch(_))
    ));
    assert!(t.batch_upsert_request(mutation_batch(1), merge.clone()).is_ok());
    assert!(t.batch_upsert_request(mutation_batch(10), merge).is_ok());
}

#[test]
fn batch_delete_rejects_empty_and_oversized_batches() {
    let t = table();
    assert!(matches!(t.batch_delete_request(&id_batch(0)), Err(Error::InvalidBatch(_))));
    assert!(matches!(t.batch_delete_request(&id_batch(11)), Err(Error::InvalidBatch(_))));
    assert!(t.batch_delete_request(&id_batch(1)).is_ok());
    assert!(t.batch_delete_request(&id_batch(10)).is_ok());
}

#[test]
fn batch_delete_puts_each_id_in_the_query() {
    let t = table();
    let req = t.batch_delete_request(&vec!["recAAA".to_string(), "recBBB".to_string()]).unwrap();
    assert_eq!(req.method, HttpMethod::Delete);
    assert_eq!(
        req.query,
        vec![
            ("records[]".to_string(), "recAAA".to_string()),
            ("records[]".to_string(), "recBBB".to_string()),
        ]
    );
}

#[test]
fn batch_upsert_carries_items_and_merge_fields() {
    let t = table();
    let items = vec![
        RecordMutation { id: Some("rec123".to_string()), fields: fields_named("Existing") },
        RecordMutation { id: None, fields: fields_named("Fresh") },
    ];
    let req = t.batch_upsert_request(items, vec!["Name".to_string()]).unwrap();
    assert_eq!(req.method, HttpMethod::Patch);
    match req.body {
        RequestBody::Upsert { records, fields_to_merge_on, typecast } => {
            assert_eq!(records.len(), 2);
            assert_eq!(records[0].id, Some("rec123".to_string()));
            assert_eq!(records[1].id, None);
            assert_eq!(fields_to_merge_on, vec!["Name".to_string()]);
            assert!(!typecast);
        }
        other => panic!("expected an upsert body, got {:?}", other),
    }
}

#[test]
fn upsert_outcome_keeps_matched_id_and_assigns_fresh_one() {
    // One item names an existing record; the other carries no identifier.
    // The response's first element keeps the pre-existing identifier; the
    // second gets a newly assigned one distinct from every input.
    let existing = Record::new(
        "rec123".to_string(),
        "2023-06-01T00:00:00Z".to_string(),
        fields_named("Existing Record for Upsert"),
    );
    let server = ServerModel { records: vec![existing] };
    let items = vec![
        RecordMutation { id: Some("rec123".to_string()), fields: fields_named("Updated") },
        RecordMutation { id: None, fields: fields_named("New Record via Upsert") },
    ];
    let fresh = vec!["recNEW456".to_string(), "recNEW789".to_string()];
    let result = server.upsert_outcome(items, fresh, "2024-01-01T00:00:00Z");

    assert_eq!(result.len(), 2);
    assert_eq!(result[0].id, "rec123");
    assert_eq!(result[1].id, "recNEW789");
    assert_ne!(result[1].id, result[0].id);
    assert_ne!(result[1].id, "rec123");
}

#[test]
fn create_and_update_requests_have_the_documented_shape() {
    let t = table();
    let create = t.create_request(fields_named("One"));
    assert_eq!(create.method, HttpMethod::Post);
    assert!(create.url.ends_with("/Tasks/"));
    match create.body {
        RequestBody::Single { typecast, .. } => assert!(!typecast),
        other => panic!("expected a single-record body, got {:?}", other),
    }

    let update = t.update_with_typecast_request("rec42", fields_named("Two"), true);
    assert_eq!(update.method, HttpMethod::Patch);
    assert!(update.url.ends_with("/Tasks/rec42"));
    match update.body {
        RequestBody::Single { typecast, .. } => assert!(typecast),
        other => panic!("expected a single-record body, got {:?}", other),
    }

    let delete = t.delete_request("rec42");
    assert_eq!(delete.method, HttpMethod::Delete);
    assert!(delete.url.ends_with("/Tasks/rec42"));
}

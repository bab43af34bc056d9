use rsairtable::FieldMap;
use rsairtable::FieldValue;
use rsairtable::Record;
use rsairtable::views::ViewError;
use rsairtable::views::ViewKind;
use rsairtable::views::ViewRegistry;
use rsairtable::views::ViewProcessor;
use rsairtable::views::clio::ClioView;
use rsairtable::views::extract_field_value;
use rsairtable::views::process_with_view;

fn create_test_record(id: &str, fields: Vec<(&str, FieldValue)>) -> Record {
    let mut map = FieldMap::new();
    for (name, value) in fields {
        map.insert(name.to_string(), value);
    }
    Record::new(id.to_string(), "2024-01-01T00:00:00Z".to_string(), map)
}

fn text(s: &str) -> FieldValue {
    FieldValue::Str(s.to_string())
}

fn clio_entry(pairs: Vec<(&str, &str)>) -> FieldValue {
    FieldValue::Object(
        pairs.into_iter().map(|(k, v)| (k.to_string(), text(v))).collect(),
    )
}

#[test]
fn test_should_include_record_with_valid_clio_id() {
    let view = ClioView::new();
    let record = create_test_record("rec123", vec![("Clio Matter ID", text("12345"))]);
    assert!(view.should_include_record(&record));
}

#[test]
fn test_should_exclude_record_with_null_clio_id() {
    let view = ClioView::new();
    let record = create_test_record("rec123", vec![("Clio Matter ID", FieldValue::Null)]);
    assert!(!view.should_include_record(&record));
}

#[test]
fn test_should_exclude_record_with_empty_clio_id() {
    let view = ClioView::new();
    let record = create_test_record("rec123", vec![("Clio Matter ID", text(""))]);
    assert!(!view.should_include_record(&record));
}

#[test]
fn test_should_exclude_record_with_whitespace_only_clio_id() {
    let view = ClioView::new();
    let record = create_test_record("rec123", vec![("Clio Matter ID", text("   "))]);
    assert!(!view.should_include_record(&record));
}

#[test]
fn should_exclude_record_with_unicode_whitespace_only_clio_id() {
    // trim() removes every Unicode white-space character, not just ASCII:
    // vertical tab, form feed, next line, no-break space, en/em spaces.
    let view = ClioView::new();
    for blank in ["\u{000B}", "\u{000C}", "\u{0085}", "\u{00A0}", "\u{2003}\u{2009}", " \u{3000} "] {
        let record = create_test_record("rec123", vec![("Clio Matter ID", text(blank))]);
        assert!(!view.should_include_record(&record));
    }
    let record = create_test_record("rec123", vec![("Clio Matter ID", text("\u{00A0}x"))]);
    assert!(view.should_include_record(&record));
}

#[test]
fn test_should_exclude_record_without_clio_id_field() {
    let view = ClioView::new();
    let record = create_test_record("rec123", vec![]);
    assert!(!view.should_include_record(&record));
}

#[test]
fn test_process_records_with_all_fields() {
    let view = ClioView::new();
    let record = create_test_record(
        "rec123",
        vec![
            ("Clio Matter ID", text("12345")),
            ("Matter Title", text("Test Matter")),
            ("Clio Matter Url", text("https://example.com/matter/12345")),
            ("Clio Drive Folder", text("Test Folder")),
            (
                "Open in Google drive (from Clio Drive Folder)",
                text("https://drive.google.com/folder123"),
            ),
        ],
    );
    let result = view.process_records(vec![record]).unwrap();

    let expected = FieldValue::List(vec![clio_entry(vec![
        ("record_id", "rec123"),
        ("matter_title", "Test Matter"),
        ("clio_matter_id", "12345"),
        ("clio_matter_url", "https://example.com/matter/12345"),
        ("clio_drive_folder", "Test Folder"),
        ("google_drive_link", "https://drive.google.com/folder123"),
    ])]);

    assert_eq!(result, expected);
}

#[test]
fn test_process_records_with_missing_optional_fields() {
    let view = ClioView::new();
    let record = create_test_record("rec123", vec![("Clio Matter ID", text("12345"))]);
    let result = view.process_records(vec![record]).unwrap();

    let expected = FieldValue::List(vec![clio_entry(vec![
        ("record_id", "rec123"),
        ("matter_title", ""),
        ("clio_matter_id", "12345"),
        ("clio_matter_url", ""),
        ("clio_drive_folder", ""),
        ("google_drive_link", ""),
    ])]);

    assert_eq!(result, expected);
}

#[test]
fn test_process_records_filters_multiple_records() {
    let view = ClioView::new();

    let record1 = create_test_record(
        "rec123",
        vec![("Clio Matter ID", text("12345")), ("Matter Title", text("Valid Matter"))],
    );
    let record2 = create_test_record(
        "rec456",
        vec![("Clio Matter ID", FieldValue::Null), ("Matter Title", text("Invalid Matter"))],
    );

    let records = vec![record1, record2];
    let filtered_records: Vec<Record> = records
        .into_iter()
        .filter(|r| view.should_include_record(r))
        .collect();
    let result = view.process_records(filtered_records).unwrap();

    let entries = match &result {
        FieldValue::List(items) => items,
        _ => panic!("expected a list"),
    };
    assert_eq!(entries.len(), 1);
    let expected = clio_entry(vec![
        ("record_id", "rec123"),
        ("matter_title", "Valid Matter"),
        ("clio_matter_id", "12345"),
        ("clio_matter_url", ""),
        ("clio_drive_folder", ""),
        ("google_drive_link", ""),
    ]);
    assert_eq!(entries[0], expected);
}

#[test]
fn process_with_view_filters_and_formats() {
    let included = create_test_record(
        "recA",
        vec![("Clio Matter ID", text("77")), ("Matter Title", text("Kept"))],
    );
    let excluded = create_test_record("recB", vec![("Clio Matter ID", text("  "))]);
    let result = process_with_view("clio", vec![included, excluded]).unwrap();

    let expected = FieldValue::List(vec![clio_entry(vec![
        ("record_id", "recA"),
        ("matter_title", "Kept"),
        ("clio_matter_id", "77"),
        ("clio_matter_url", ""),
        ("clio_drive_folder", ""),
        ("google_drive_link", ""),
    ])]);
    assert_eq!(result, expected);
}

#[test]
fn process_with_view_rejects_unknown_name() {
    let result = process_with_view("nonsuch", vec![]);
    match result {
        Err(ViewError::UnknownView { name, available }) => {
            assert_eq!(name, "nonsuch");
            assert_eq!(available, vec!["clio".to_string()]);
        }
        other => panic!("expected an unknown-view error, got {:?}", other),
    }
}

#[test]
fn process_records_reports_missing_required_field() {
    let view = ClioView::new();
    let bad = create_test_record("recMissing", vec![("Matter Title", text("No key field"))]);
    match view.process_records(vec![bad]) {
        Err(ViewError::MissingRequiredField { field_name, record_id }) => {
            assert_eq!(field_name, "Clio Matter ID");
            assert_eq!(record_id, "recMissing");
        }
        other => panic!("expected a missing-field error, got {:?}", other),
    }
}

#[test]
fn extract_field_value_handles_presence_null_and_absence() {
    let record = create_test_record(
        "recX",
        vec![("present", text("v")), ("nullish", FieldValue::Null)],
    );
    assert_eq!(
        extract_field_value(&record, "present", true).unwrap(),
        Some(text("v"))
    );
    assert_eq!(extract_field_value(&record, "nullish", false).unwrap(), None);
    assert_eq!(extract_field_value(&record, "absent", false).unwrap(), None);
    match extract_field_value(&record, "absent", true) {
        Err(ViewError::MissingRequiredField { field_name, record_id }) => {
            assert_eq!(field_name, "absent");
            assert_eq!(record_id, "recX");
        }
        other => panic!("expected a missing-field error, got {:?}", other),
    }
}

#[test]
fn view_metadata_is_published() {
    let view = ClioView::new();
    assert_eq!(view.name(), "clio");
    assert_eq!(view.required_fields(), vec!["Clio Matter ID"]);
    assert_eq!(view.optional_fields().len(), 4);
}

#[test]
fn registry_lookup_and_listing() {
    let mut registry = ViewRegistry::new();
    assert!(registry.get_view("clio").is_some());
    assert!(registry.get_view("other").is_none());
    let listed = registry.list_views();
    assert_eq!(listed.len(), 1);
    assert_eq!(listed[0].0, "clio");
    assert_eq!(
        listed[0].1,
        "Extract Matter records with Clio integration fields (filters null Clio Matter IDs)"
    );

    registry.register(ViewKind::Clio(ClioView::new()));
    assert_eq!(registry.list_views().len(), 2);
}

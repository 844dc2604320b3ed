use paimon::error::PlanError;
use paimon::object_table::{
    effective_batch_size,
    object_entries_to_batch, owner_array, read_only_error, scan_projection, string_array, Column,
    FieldType, ObjectEntry, OBJECT_TABLE_FIELD_COUNT,
};

fn entry(path: &str, name: &str, length: i64, owner: Option<&str>) -> ObjectEntry {
    ObjectEntry {
        path: path.to_string(),
        name: name.to_string(),
        length,
        mtime: 100 + length,
        atime: 0,
        owner: owner.map(|o| o.to_string()),
    }
}

#[test]
fn projected_path_column() {
    let entries = vec![entry("nested/child.bin", "child.bin", 5, None), entry("root.txt", "root.txt", 4, None)];
    let batch = object_entries_to_batch(&entries, &vec![0], &vec![FieldType::Utf8]).unwrap();
    assert_eq!(batch.row_count, 2);
    match &batch.columns[0] {
        Column::Strings { view, values } => {
            assert!(!view);
            assert_eq!(values, &vec!["nested/child.bin".to_string(), "root.txt".to_string()]);
        }
        other => panic!("unexpected: {other:?}"),
    }
}

#[test]
fn all_columns_with_view_types() {
    let entries = vec![entry("a", "a", 1, None), entry("b/c", "c", 2, Some("alice"))];
    let types = vec![
        FieldType::Utf8View,
        FieldType::Int64,
        FieldType::Int64,
        FieldType::Int64,
        FieldType::Utf8View,
        FieldType::Utf8View,
    ];
    let batch = object_entries_to_batch(&entries, &vec![5, 4, 3, 2, 1, 0], &types).unwrap();
    assert_eq!(batch.columns.len(), 6);
    match &batch.columns[0] {
        Column::NullableStrings { view, owners } => {
            assert!(view);
            assert_eq!(owners, &vec![None, Some("alice".to_string())]);
        }
        other => panic!("unexpected: {other:?}"),
    }
    assert!(matches!(&batch.columns[1], Column::Int64(v) if v == &vec![0, 0]));
    assert!(matches!(&batch.columns[2], Column::Int64(v) if v == &vec![101, 102]));
    assert!(matches!(&batch.columns[3], Column::Int64(v) if v == &vec![1, 2]));
    assert!(matches!(&batch.columns[4], Column::Strings { view: true, values } if values == &vec!["a".to_string(), "c".to_string()]));
    assert!(matches!(&batch.columns[5], Column::Strings { view: true, .. }));
}

#[test]
fn owners_all_missing_give_nulls() {
    let entries = vec![entry("a", "a", 1, None), entry("b", "b", 2, None)];
    assert!(matches!(
        owner_array(&entries, FieldType::Utf8),
        Column::Nulls { data_type: FieldType::Utf8, len: 2 }
    ));
    assert!(matches!(owner_array(&Vec::new(), FieldType::Utf8View), Column::Nulls { len: 0, .. }));
}

#[test]
fn string_column_storage_follows_type() {
    assert!(matches!(string_array(vec!["x".to_string()], FieldType::Utf8View), Column::Strings { view: true, .. }));
    assert!(matches!(string_array(vec!["x".to_string()], FieldType::Utf8), Column::Strings { view: false, .. }));
}

#[test]
fn out_of_range_projection_is_internal_error() {
    let entries = vec![entry("a", "a", 1, None)];
    match object_entries_to_batch(&entries, &vec![0, 6, 7], &vec![FieldType::Utf8; 3]) {
        Err(PlanError::Internal(message)) => {
            assert_eq!(message, "Object table projection index 6 is out of range")
        }
        other => panic!("unexpected: {other:?}"),
    }
}

#[test]
fn scan_projection_defaults_to_every_field() {
    assert_eq!(scan_projection(None, OBJECT_TABLE_FIELD_COUNT), vec![0, 1, 2, 3, 4, 5]);
    assert_eq!(scan_projection(Some(&vec![0]), OBJECT_TABLE_FIELD_COUNT), vec![0]);
    assert!(scan_projection(None, 0).is_empty());
}

#[test]
fn writes_are_refused() {
    let err = read_only_error("db.objects");
    assert!(err.to_string().contains("read-only"), "{}", err.to_string());
    assert_eq!(err.to_string(), "Object table 'db.objects' is read-only");
    assert!(matches!(err, PlanError::NotImplemented(_)));
}

#[test]
fn batch_size_is_at_least_one() {
    assert_eq!(effective_batch_size(0), 1);
    assert_eq!(effective_batch_size(1), 1);
    assert_eq!(effective_batch_size(8192), 8192);
}

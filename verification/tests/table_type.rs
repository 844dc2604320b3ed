use paimon::table_type::TableType;

const ALL: [TableType; 6] = [
    TableType::Table,
    TableType::FormatTable,
    TableType::MaterializedTable,
    TableType::ObjectTable,
    TableType::LanceTable,
    TableType::IcebergTable,
];

#[test]
fn parses_every_declared_value() {
    for table_type in ALL {
        assert_eq!(TableType::from_str(table_type.as_str()).unwrap(), table_type);
        assert_eq!(
            TableType::from_str(&table_type.as_str().to_uppercase()).unwrap(),
            table_type
        );
    }
}

#[test]
fn rejects_unknown_value() {
    let err = match TableType::from_str("delta-table") {
        Err(err) => err,
        Ok(_) => panic!("unknown type must not parse"),
    };
    assert!(err.to_string().contains("delta-table"), "{}", err.to_string());
}

#[test]
fn types_without_a_paimon_reader_require_an_engine() {
    for table_type in [
        TableType::ObjectTable,
        TableType::LanceTable,
        TableType::IcebergTable,
    ] {
        assert!(table_type.requires_table_engine(), "{}", table_type.as_str());
    }
    for table_type in [
        TableType::Table,
        TableType::FormatTable,
        TableType::MaterializedTable,
    ] {
        assert!(!table_type.requires_table_engine(), "{}", table_type.as_str());
    }
}

#[test]
fn as_str_gives_each_option_value() {
    let names: Vec<&str> = ALL.iter().map(|t| t.as_str()).collect();
    assert_eq!(
        names,
        vec![
            "table",
            "format-table",
            "materialized-table",
            "object-table",
            "lance-table",
            "iceberg-table"
        ]
    );
}

#[test]
fn parsing_ignores_mixed_ascii_case() {
    assert_eq!(TableType::from_str("Object-Table").unwrap(), TableType::ObjectTable);
    assert_eq!(TableType::from_str("iCeBeRg-TaBlE").unwrap(), TableType::IcebergTable);
}

#[test]
fn parsing_is_exact_apart_from_case() {
    assert!(TableType::from_str("").is_err());
    assert!(TableType::from_str("table ").is_err());
    assert!(TableType::from_str("tables").is_err());
    assert!(TableType::from_str("format_table").is_err());
}

#[test]
fn unknown_value_error_message() {
    let err = TableType::from_str("delta-table").unwrap_err();
    assert_eq!(err.to_string(), "unknown table type: delta-table");
    assert!(matches!(err, paimon::error::Error::Unsupported { .. }));
}

#[test]
fn default_table_type_is_table() {
    assert_eq!(TableType::default(), TableType::Table);
}

#[test]
fn displayed_text_is_option_value() {
    assert_eq!(TableType::ObjectTable.to_string(), "object-table");
    assert_eq!(TableType::Table.to_string(), "table");
}

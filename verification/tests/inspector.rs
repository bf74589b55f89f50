use pg_datanymizer::catalog::{
    CatalogColumnRow, CatalogSerialRow, CatalogSizeRow, CatalogSnapshot, CatalogTableRow,
};
use pg_datanymizer::inspector::{CatalogError, PgSchemaInspector};
use pg_datanymizer::model::{ForeignKey, PgTable};

fn empty_snapshot() -> CatalogSnapshot {
    CatalogSnapshot {
        tables: vec![],
        columns: vec![],
        foreign_keys: vec![],
        size_stats: vec![],
        serial_sequences: vec![],
        block_size: 8192,
    }
}

fn table(schema: &str, name: &str) -> PgTable {
    PgTable::new(name.to_string(), schema.to_string())
}

fn table_row(schema: &str, name: &str) -> CatalogTableRow {
    CatalogTableRow {
        tablename: name.to_string(),
        schemaname: schema.to_string(),
    }
}

fn column_row(
    schema: &str,
    name: &str,
    column: &str,
    position: i32,
    data_type: &str,
    type_oid: u32,
) -> CatalogColumnRow {
    CatalogColumnRow {
        table_schema: schema.to_string(),
        table_name: name.to_string(),
        column_name: column.to_string(),
        ordinal_position: position,
        data_type: data_type.to_string(),
        type_oid,
    }
}

fn size_row(
    schema: &str,
    name: &str,
    reltuples: i64,
    relpages: i64,
    relation_size: i64,
) -> CatalogSizeRow {
    CatalogSizeRow {
        relname: name.to_string(),
        nspname: schema.to_string(),
        reltuples,
        relpages,
        relation_size,
    }
}

fn foreign_key(owner: &str, referenced_schema: &str, referenced: &str) -> ForeignKey {
    ForeignKey {
        table_schema: "public".to_string(),
        constraint_name: format!("{}_{}_fkey", owner, referenced),
        table_name: owner.to_string(),
        column_name: format!("{}_id", referenced),
        foreign_table_schema: referenced_schema.to_string(),
        foreign_table_name: referenced.to_string(),
        foreign_column_name: "id".to_string(),
    }
}

fn serial_row(quoted_table: &str, column: &str, answer: Option<&str>) -> CatalogSerialRow {
    CatalogSerialRow {
        table: quoted_table.to_string(),
        column: column.to_string(),
        sequence_name: answer.map(|a| a.to_string()),
    }
}

#[test]
fn empty_catalog_lists_no_tables() {
    let catalog = empty_snapshot();
    let inspector = PgSchemaInspector;
    let tables = inspector.get_tables(&catalog).unwrap();
    assert!(tables.is_empty());
}

#[test]
fn row_builders_carry_every_field_over() {
    let t = pg_datanymizer::inspector::table_from_row(&table_row("public", "users"));
    assert_eq!(t.schemaname, "public".to_string());
    assert_eq!(t.tablename, "users".to_string());
    assert_eq!(t.get_name(), "users".to_string());
    assert!(t.columns.is_empty());
    assert!(t.sequences.is_empty());
    assert_eq!(t.size, 0);

    let c = pg_datanymizer::inspector::column_from_row(&column_row(
        "public", "users", "id", 1, "integer", 23,
    ));
    assert_eq!(c.name, "id".to_string());
    assert_eq!(c.position, 1);
    assert_eq!(c.data_type, "integer".to_string());
    assert_eq!(c.type_oid, 23);
}

#[test]
fn quoted_full_name_quotes_both_parts() {
    let t = table("public", "users");
    assert_eq!(t.quoted_full_name(), "\"public\".\"users\"".to_string());
}

#[test]
fn columns_come_back_in_ascending_position_order() {
    let mut catalog = empty_snapshot();
    catalog.columns = vec![
        column_row("public", "users", "email", 3, "text", 25),
        column_row("public", "users", "id", 1, "integer", 23),
        column_row("public", "other", "stray", 2, "text", 25),
        column_row("private", "users", "stray", 2, "text", 25),
        column_row("public", "users", "name", 2, "character varying", 1043),
    ];
    let inspector = PgSchemaInspector;
    let cols = inspector.get_columns(&catalog, &table("public", "users"));
    let names: Vec<&str> = cols.iter().map(|c| c.name.as_str()).collect();
    assert_eq!(names, vec!["id", "name", "email"]);
    let positions: Vec<i32> = cols.iter().map(|c| c.position).collect();
    assert_eq!(positions, vec![1, 2, 3]);
    assert_eq!(cols[0].data_type, "integer".to_string());
    assert_eq!(cols[0].type_oid, 23);
}

#[test]
fn columns_of_unknown_table_are_empty() {
    let catalog = empty_snapshot();
    let inspector = PgSchemaInspector;
    let cols = inspector.get_columns(&catalog, &table("public", "users"));
    assert!(cols.is_empty());
}

#[test]
fn table_size_multiplies_density_by_disk_pages() {
    let mut catalog = empty_snapshot();
    // 100 tuples over 10 recorded pages, 10 pages on disk: 10 * 10 = 100.
    catalog.size_stats = vec![size_row("public", "users", 100, 10, 81920)];
    let inspector = PgSchemaInspector;
    let size = inspector.get_table_size(&catalog, &table("public", "users"));
    assert_eq!(size, Ok(100));
}

#[test]
fn zero_recorded_pages_use_a_floor_of_one() {
    let mut catalog = empty_snapshot();
    // 7 tuples, zero recorded pages, 2 pages on disk: (7 / 1) * 2 = 14.
    catalog.size_stats = vec![size_row("public", "users", 7, 0, 16384)];
    let inspector = PgSchemaInspector;
    let size = inspector.get_table_size(&catalog, &table("public", "users"));
    assert_eq!(size, Ok(14));
}

#[test]
fn missing_statistics_fail_the_size_lookup() {
    let mut catalog = empty_snapshot();
    catalog.size_stats = vec![size_row("public", "posts", 5, 1, 8192)];
    let inspector = PgSchemaInspector;
    let size = inspector.get_table_size(&catalog, &table("public", "users"));
    assert_eq!(size, Err(CatalogError::RelationStatsNotFound));
}

#[test]
fn duplicate_statistics_fail_the_size_lookup() {
    let mut catalog = empty_snapshot();
    catalog.size_stats = vec![
        size_row("public", "users", 5, 1, 8192),
        size_row("public", "users", 6, 1, 8192),
    ];
    let inspector = PgSchemaInspector;
    let size = inspector.get_table_size(&catalog, &table("public", "users"));
    assert_eq!(size, Err(CatalogError::RelationStatsAmbiguous));
}

#[test]
fn oversized_estimates_fail_the_size_lookup() {
    let mut catalog = empty_snapshot();
    catalog.size_stats = vec![size_row("public", "users", i64::MAX, 1, 16384)];
    let inspector = PgSchemaInspector;
    let size = inspector.get_table_size(&catalog, &table("public", "users"));
    assert_eq!(size, Err(CatalogError::SizeOutOfRange));
}

#[test]
fn sequences_collect_the_non_empty_answers() {
    let mut catalog = empty_snapshot();
    catalog.columns = vec![
        column_row("public", "users", "id", 1, "integer", 23),
        column_row("public", "users", "name", 2, "text", 25),
    ];
    catalog.serial_sequences = vec![
        serial_row("\"public\".\"users\"", "id", Some("public.users_id_seq")),
        serial_row("\"public\".\"users\"", "name", None),
    ];
    let inspector = PgSchemaInspector;
    let mut t = table("public", "users");
    let cols = inspector.get_columns(&catalog, &t);
    t.set_columns(cols);
    let sequences = inspector.get_sequences(&catalog, &t).unwrap();
    assert_eq!(sequences.len(), 1);
    assert_eq!(sequences[0].full_name, "public.users_id_seq".to_string());
}

#[test]
fn unanswered_probe_fails_the_sequence_lookup() {
    let mut catalog = empty_snapshot();
    catalog.columns = vec![column_row("public", "users", "id", 1, "integer", 23)];
    let inspector = PgSchemaInspector;
    let mut t = table("public", "users");
    let cols = inspector.get_columns(&catalog, &t);
    t.set_columns(cols);
    let r = inspector.get_sequences(&catalog, &t);
    assert_eq!(r.err(), Some(CatalogError::SerialLookupFailed));
}

#[test]
fn no_foreign_keys_no_dependencies() {
    let mut catalog = empty_snapshot();
    catalog.foreign_keys = vec![foreign_key("posts", "public", "users")];
    let inspector = PgSchemaInspector;
    let deps = inspector.get_dependencies(&catalog, &table("public", "users"));
    assert!(deps.is_empty());
}

#[test]
fn dependencies_resolve_referenced_tables() {
    let mut catalog = empty_snapshot();
    catalog.columns = vec![column_row("public", "users", "id", 1, "integer", 23)];
    catalog.foreign_keys = vec![foreign_key("posts", "public", "users")];
    catalog.size_stats = vec![size_row("public", "users", 10, 1, 8192)];
    catalog.serial_sequences = vec![serial_row(
        "\"public\".\"users\"",
        "id",
        Some("public.users_id_seq"),
    )];
    let inspector = PgSchemaInspector;
    let deps = inspector.get_dependencies(&catalog, &table("public", "posts"));
    assert_eq!(deps.len(), 1);
    assert_eq!(deps[0].schemaname, "public".to_string());
    assert_eq!(deps[0].tablename, "users".to_string());
    assert_eq!(deps[0].columns.len(), 1);
    assert_eq!(deps[0].sequences.len(), 1);
    assert_eq!(deps[0].size, 10);
}

#[test]
fn failing_size_leaves_dependency_with_default_size() {
    let mut catalog = empty_snapshot();
    catalog.foreign_keys = vec![foreign_key("posts", "public", "users")];
    // No statistics row for "users": its size lookup fails, yet the
    // dependency still comes back, at the neutral default.
    let inspector = PgSchemaInspector;
    let deps = inspector.get_dependencies(&catalog, &table("public", "posts"));
    assert_eq!(deps.len(), 1);
    assert_eq!(deps[0].tablename, "users".to_string());
    assert_eq!(deps[0].size, 0);
}

#[test]
fn listing_skips_the_reserved_schemas() {
    let mut catalog = empty_snapshot();
    catalog.tables = vec![
        table_row("pg_catalog", "pg_class"),
        table_row("public", "users"),
        table_row("information_schema", "columns"),
        table_row("app", "events"),
    ];
    catalog.size_stats = vec![
        size_row("public", "users", 10, 1, 8192),
        size_row("app", "events", 4, 2, 16384),
    ];
    let inspector = PgSchemaInspector;
    let tables = inspector.get_tables(&catalog).unwrap();
    let names: Vec<&str> = tables.iter().map(|t| t.tablename.as_str()).collect();
    assert_eq!(names, vec!["users", "events"]);
    assert_eq!(tables[0].size, 10);
    assert_eq!(tables[1].size, 4);
}

#[test]
fn listing_attaches_columns_and_sequences() {
    let mut catalog = empty_snapshot();
    catalog.tables = vec![table_row("public", "users")];
    catalog.columns = vec![
        column_row("public", "users", "name", 2, "text", 25),
        column_row("public", "users", "id", 1, "integer", 23),
    ];
    catalog.size_stats = vec![size_row("public", "users", 10, 1, 8192)];
    catalog.serial_sequences = vec![
        serial_row("\"public\".\"users\"", "id", Some("public.users_id_seq")),
        serial_row("\"public\".\"users\"", "name", None),
    ];
    let inspector = PgSchemaInspector;
    let tables = inspector.get_tables(&catalog).unwrap();
    assert_eq!(tables.len(), 1);
    assert_eq!(tables[0].columns.len(), 2);
    assert_eq!(tables[0].columns[0].name, "id".to_string());
    assert_eq!(tables[0].sequences.len(), 1);
    assert_eq!(
        tables[0].sequences[0].full_name,
        "public.users_id_seq".to_string()
    );
}

#[test]
fn listing_aborts_on_a_failing_size_lookup() {
    let mut catalog = empty_snapshot();
    catalog.tables = vec![
        table_row("public", "users"),
        table_row("public", "posts"),
    ];
    catalog.size_stats = vec![size_row("public", "users", 10, 1, 8192)];
    let inspector = PgSchemaInspector;
    let r = inspector.get_tables(&catalog);
    assert_eq!(r.err(), Some(CatalogError::RelationStatsNotFound));
}

use tile_db::{get_tilesets, tilesets_query, DbError, Tileset, Tilesets};

fn row(schema: &str, table: &str, column: &str, srid: i32, kind: &str) -> Tileset {
    Tileset {
        schema: schema.to_string(),
        table: table.to_string(),
        geometry_column: column.to_string(),
        srid,
        _type: kind.to_string(),
    }
}

#[test]
fn tilesets_query_reads_the_catalog() {
    assert_eq!(
        tilesets_query(),
        "SELECT f_table_schema, f_table_name, f_geometry_column, srid, type FROM geometry_columns;"
    );
}

#[test]
fn key_joins_schema_and_table_with_a_dot() {
    assert_eq!(row("public", "roads", "geom", 4326, "LINESTRING").key(), "public.roads");
    assert_eq!(row("", "", "geom", 0, "POINT").key(), ".");
    assert_eq!(row("a.b", "c", "geom", 0, "POINT").key(), "a.b.c");
}

#[test]
fn get_tilesets_of_an_empty_catalog_is_empty() {
    let registry = get_tilesets(Ok(Vec::new())).unwrap();
    assert_eq!(registry.len(), 0);
    assert!(registry.is_empty());
    assert!(registry.get("public.roads").is_none());
}

#[test]
fn get_tilesets_has_one_entry_for_each_row() {
    let registry = get_tilesets(Ok(vec![
        row("public", "roads", "geom", 4326, "LINESTRING"),
        row("public", "lakes", "shape", 3857, "POLYGON"),
        row("osm", "roads", "way", 900913, "MULTILINESTRING"),
    ]))
    .unwrap();
    assert_eq!(registry.len(), 3);
    assert!(!registry.is_empty());
    assert!(registry.contains_key("public.roads"));
    assert!(registry.contains_key("public.lakes"));
    assert!(registry.contains_key("osm.roads"));
    assert!(!registry.contains_key("roads"));
    assert!(!registry.contains_key("public"));
    assert!(!registry.contains_key("osm.lakes"));

    let lakes = registry.get("public.lakes").unwrap();
    assert_eq!(lakes.schema, "public");
    assert_eq!(lakes.table, "lakes");
    assert_eq!(lakes.geometry_column, "shape");
    assert_eq!(lakes.srid, 3857);
    assert_eq!(lakes._type, "POLYGON");
    assert_eq!(lakes.key(), "public.lakes");

    let roads = registry.get("osm.roads").unwrap();
    assert_eq!(roads.geometry_column, "way");
    assert_eq!(roads.srid, 900913);
}

#[test]
fn get_tilesets_keeps_the_later_of_two_rows_with_one_key() {
    let registry = get_tilesets(Ok(vec![
        row("public", "roads", "geom", 4326, "LINESTRING"),
        row("public", "lakes", "shape", 3857, "POLYGON"),
        row("public", "roads", "centerline", 3857, "MULTILINESTRING"),
    ]))
    .unwrap();
    assert_eq!(registry.len(), 2);
    let roads = registry.get("public.roads").unwrap();
    assert_eq!(roads.geometry_column, "centerline");
    assert_eq!(roads.srid, 3857);
    assert_eq!(roads._type, "MULTILINESTRING");
}

#[test]
fn get_tilesets_puts_different_tables_with_one_key_under_it_once() {
    let registry = get_tilesets(Ok(vec![
        row("a.b", "c", "geom", 1, "POINT"),
        row("a", "b.c", "geom", 2, "POINT"),
    ]))
    .unwrap();
    assert_eq!(registry.len(), 1);
    let entry = registry.get("a.b.c").unwrap();
    assert_eq!(entry.schema, "a");
    assert_eq!(entry.table, "b.c");
    assert_eq!(entry.srid, 2);
}

#[test]
fn get_tilesets_hands_a_failure_on_as_query_error() {
    let reply = Err(String::from("relation \"geometry_columns\" does not exist"));
    match get_tilesets(reply) {
        Err(DbError::QueryError(text)) => {
            assert_eq!(text, "relation \"geometry_columns\" does not exist")
        }
        Err(other) => panic!("expected a QueryError, got {:?}", other),
        Ok(_) => panic!("expected a QueryError, got a registry"),
    }
}

#[test]
fn new_registry_is_empty() {
    let registry = Tilesets::new();
    assert_eq!(registry.len(), 0);
    assert!(registry.is_empty());
    assert!(!registry.contains_key(""));
    assert!(registry.get(".").is_none());
}

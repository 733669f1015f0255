use tile_db::{check_coordinate, check_name, get_tile, tile_query, DbError};

fn refusal(res: Result<String, DbError>) -> String {
    match res {
        Err(DbError::QueryError(text)) => text,
        other => panic!("expected a QueryError, got {:?}", other),
    }
}

#[test]
fn tile_query_writes_the_statement() {
    let q = tile_query("public", "roads", "3", "4", "5").unwrap();
    assert_eq!(
        q,
        "SELECT ST_AsMVT(q, 'roads', 4096, 'geom') FROM (SELECT ST_AsMVTGeom(geom, \
         TileBBox(3,4,5,4326), 4096, 256, true) AS geom FROM public.roads) AS q;"
    );
}

#[test]
fn tile_query_names_the_layer_after_the_table() {
    let q = tile_query("gis", "Land_use2", "14", "8185", "5449").unwrap();
    assert!(q.starts_with("SELECT ST_AsMVT(q, 'Land_use2', 4096, 'geom')"));
    assert!(q.ends_with("FROM gis.Land_use2) AS q;"));
    assert!(q.contains("TileBBox(14,8185,5449,4326), 4096, 256, true"));
}

#[test]
fn tile_query_keeps_leading_zeros() {
    let q = tile_query("_s", "_t", "007", "0", "00").unwrap();
    assert!(q.contains("TileBBox(007,0,00,4326)"));
    assert!(q.contains("FROM _s._t)"));
}

#[test]
fn tile_query_refuses_a_schema_that_is_no_name() {
    for schema in ["", "pub lic", "public;", "1st", "a.b", "sch\u{e9}ma", "x\"", "x--"] {
        assert_eq!(
            refusal(tile_query(schema, "roads", "1", "2", "3")),
            "schema is not a plain name"
        );
    }
}

#[test]
fn tile_query_refuses_a_table_that_is_no_name() {
    for table in ["", "roads'", "roads) AS q; DROP TABLE roads; --", "9lives", "a b", "$1"] {
        assert_eq!(
            refusal(tile_query("public", table, "1", "2", "3")),
            "table is not a plain name"
        );
    }
}

#[test]
fn tile_query_refuses_coordinates_that_are_no_numbers() {
    assert_eq!(refusal(tile_query("public", "roads", "", "2", "3")), "zoom is not a number");
    assert_eq!(refusal(tile_query("public", "roads", "-1", "2", "3")), "zoom is not a number");
    assert_eq!(refusal(tile_query("public", "roads", "1", "2.5", "3")), "column is not a number");
    assert_eq!(refusal(tile_query("public", "roads", "1", " 2", "3")), "column is not a number");
    assert_eq!(
        refusal(tile_query("public", "roads", "1", "2", "3 OR 1=1")),
        "row is not a number"
    );
    assert_eq!(refusal(tile_query("public", "roads", "1", "2", "\u{663}")), "row is not a number");
}

#[test]
fn tile_query_reports_the_first_fault() {
    assert_eq!(refusal(tile_query("", "", "", "", "")), "schema is not a plain name");
    assert_eq!(refusal(tile_query("s", "", "", "", "")), "table is not a plain name");
    assert_eq!(refusal(tile_query("s", "t", "", "", "")), "zoom is not a number");
    assert_eq!(refusal(tile_query("s", "t", "0", "", "")), "column is not a number");
    assert_eq!(refusal(tile_query("s", "t", "0", "0", "")), "row is not a number");
}

#[test]
fn check_name_accepts_letters_digits_and_underscores() {
    assert!(check_name("a"));
    assert!(check_name("_"));
    assert!(check_name("Z9_z"));
    assert!(check_name("geometry_columns"));
    assert!(!check_name(""));
    assert!(!check_name("9a"));
    assert!(!check_name("a-b"));
    assert!(!check_name("a\u{0}"));
    assert!(!check_name("\u{430}"));
    assert!(!check_name("a`"));
    assert!(!check_name("a{"));
    assert!(!check_name("@a"));
    assert!(!check_name("a["));
}

#[test]
fn check_coordinate_accepts_digits_only() {
    assert!(check_coordinate("0"));
    assert!(check_coordinate("0123456789"));
    assert!(check_coordinate("99999999999999999999999999"));
    assert!(!check_coordinate(""));
    assert!(!check_coordinate("+1"));
    assert!(!check_coordinate("1e3"));
    assert!(!check_coordinate("/"));
    assert!(!check_coordinate(":"));
    assert!(!check_coordinate("1 "));
}

#[test]
fn get_tile_hands_out_the_first_payload() {
    let tile = get_tile(Ok(vec![vec![0x1a, 0x02, 0x78, 0x02]])).unwrap();
    assert_eq!(tile, vec![0x1a, 0x02, 0x78, 0x02]);
    let tile = get_tile(Ok(vec![vec![1], vec![2], vec![3]])).unwrap();
    assert_eq!(tile, vec![1]);
}

#[test]
fn get_tile_takes_an_empty_payload_for_a_tile() {
    let tile = get_tile(Ok(vec![Vec::new()])).unwrap();
    assert_eq!(tile.len(), 0);
}

#[test]
fn get_tile_without_rows_is_an_empty_result() {
    assert!(matches!(get_tile(Ok(Vec::new())), Err(DbError::EmptyResultError)));
}

#[test]
fn get_tile_hands_a_failure_on_as_query_error() {
    let reply = Err(String::from("relation \"nowhere.nothing\" does not exist"));
    match get_tile(reply) {
        Err(DbError::QueryError(text)) => {
            assert_eq!(text, "relation \"nowhere.nothing\" does not exist")
        }
        other => panic!("expected a QueryError, got {:?}", other),
    }
}

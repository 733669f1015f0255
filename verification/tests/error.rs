use tile_db::DbError;

#[test]
fn text_of_an_error_is_what_it_carries() {
    assert_eq!(DbError::ConfigError(String::from("a")).text(), "a");
    assert_eq!(DbError::PoolInitError(String::from("b")).text(), "b");
    assert_eq!(DbError::PoolAcquireError(String::from("c")).text(), "c");
    assert_eq!(DbError::QueryError(String::from("")).text(), "");
}

#[test]
fn text_of_an_error_without_payload_is_fixed() {
    assert_eq!(DbError::LookupError.text(), "no connection pool is registered");
    assert_eq!(DbError::EmptyResultError.text(), "the statement returned no row");
}

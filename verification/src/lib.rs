//! Database-facing core of a vector-tile server, without the I/O.
//!
//! The crate builds the statements a tile server sends to a spatial database
//! and interprets what comes back: the tile payload of a tile query, and the
//! registry of servable tilesets read from the geometry catalog. It also
//! checks the settings a connection pool is opened with. Opening the pool,
//! checking connections out and running the statements is left to the caller.

pub mod error;
pub mod pool;
pub mod tile;
pub mod tileset;

pub use error::DbError;
pub use pool::{
    check_high_escape, config_fault, connect_rejection, get_connection, is_first_colon,
    is_high_hex, opens_with_high_escape, pool_opened, pool_settings, setup_connection_pool,
    PoolSettings,
};
pub use tile::{
    address_fault, check_coordinate, check_name, get_tile, is_coordinate, is_name, is_name_char,
    is_name_start, tile_query, tile_sql,
};
pub use tileset::{
    get_tilesets, keys_distinct, lemma_registry_keys, lemma_registry_last_wins,
    lemma_registry_one_entry_per_row, registry_of, tileset_key, tilesets_query, tilesets_sql,
    Tileset, TilesetView, Tilesets,
};

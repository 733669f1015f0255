use vstd::prelude::*;
use vstd::string::StringExecFns;
use crate::error::DbError;

verus! {

/// Whether `c` may start a name: an ASCII letter or an underscore.
pub open spec fn is_name_start(c: char) -> bool {
    ('a' <= c <= 'z') || ('A' <= c <= 'Z') || c == '_'
}

/// Whether `c` may stand in a name: an ASCII letter, a digit or an underscore.
pub open spec fn is_name_char(c: char) -> bool {
    is_name_start(c) || ('0' <= c <= '9')
}

/// Whether `s` can be written into a statement as the name of a schema or a
/// table without quoting: it is not empty, starts with a letter or an
/// underscore, and holds letters, digits and underscores only.
pub open spec fn is_name(s: Seq<char>) -> bool {
    &&& s.len() > 0
    &&& is_name_start(s[0])
    &&& forall|i: int| 0 <= i < s.len() ==> is_name_char(#[trigger] s[i])
}

/// Whether `s` is a tile coordinate: one decimal digit or more, nothing else.
pub open spec fn is_coordinate(s: Seq<char>) -> bool {
    &&& s.len() > 0
    &&& forall|i: int| 0 <= i < s.len() ==> '0' <= #[trigger] s[i] <= '9'
}

fn name_start(c: char) -> (b: bool)
    ensures
        b == is_name_start(c),
{
    ('a' <= c && c <= 'z') || ('A' <= c && c <= 'Z') || c == '_'
}

fn digit(c: char) -> (b: bool)
    ensures
        b == ('0' <= c <= '9'),
{
    '0' <= c && c <= '9'
}

/// Decides [`is_name`].
pub fn check_name(s: &str) -> (ok: bool)
    ensures
        ok == is_name(s@),
{
    let mut empty = true;
    let mut ok = true;
    for c in it: s.chars()
        invariant
            it.seq() == s@,
            empty == (it.index() == 0),
            ok == ((forall|i: int| 0 <= i < it.index() ==> is_name_char(#[trigger] s@[i])) && (
            it.index() > 0 ==> is_name_start(s@[0]))),
    {
        if empty {
            ok = name_start(c);
            empty = false;
        } else if !(name_start(c) || digit(c)) {
            ok = false;
        }
    }
    ok && !empty
}

/// Decides [`is_coordinate`].
pub fn check_coordinate(s: &str) -> (ok: bool)
    ensures
        ok == is_coordinate(s@),
{
    let mut empty = true;
    let mut ok = true;
    for c in it: s.chars()
        invariant
            it.seq() == s@,
            empty == (it.index() == 0),
            ok == (forall|i: int| 0 <= i < it.index() ==> '0' <= #[trigger] s@[i] <= '9'),
    {
        empty = false;
        if !digit(c) {
            ok = false;
        }
    }
    ok && !empty
}

/// The statement that asks the database for one tile: the rows of
/// `schema.table` clipped to the tile `z`/`x`/`y` at an extent of 4096 units
/// with a buffer of 256, encoded as one vector tile whose layer is named
/// `table`.
pub open spec fn tile_sql(
    schema: Seq<char>,
    table: Seq<char>,
    z: Seq<char>,
    x: Seq<char>,
    y: Seq<char>,
) -> Seq<char> {
    "SELECT ST_AsMVT(q, '"@ + table
        + "', 4096, 'geom') FROM (SELECT ST_AsMVTGeom(geom, TileBBox("@ + z + ","@ + x + ","@ + y
        + ",4326), 4096, 256, true) AS geom FROM "@ + schema + "."@ + table + ") AS q;"@
}

/// What is wrong with a tile address, if anything: the first of schema,
/// table, zoom, column and row that cannot be written into a statement.
pub open spec fn address_fault(
    schema: Seq<char>,
    table: Seq<char>,
    z: Seq<char>,
    x: Seq<char>,
    y: Seq<char>,
) -> Option<Seq<char>> {
    if !is_name(schema) {
        Some("schema is not a plain name"@)
    } else if !is_name(table) {
        Some("table is not a plain name"@)
    } else if !is_coordinate(z) {
        Some("zoom is not a number"@)
    } else if !is_coordinate(x) {
        Some("column is not a number"@)
    } else if !is_coordinate(y) {
        Some("row is not a number"@)
    } else {
        None
    }
}

fn rejected(text: &str) -> (res: Result<String, DbError>)
    ensures
        res matches Err(DbError::QueryError(t)) && t@ == text@,
{
    Err(DbError::QueryError(String::from_str(text)))
}

/// Writes the statement for the tile at `z`/`x`/`y` of `schema.table`.
///
/// Nothing of the address reaches the statement unchecked: the names must be
/// plain names and the coordinates decimal numbers, else the address is
/// refused as a `QueryError` that says which part is at fault.
pub fn tile_query(schema: &str, table: &str, z: &str, x: &str, y: &str) -> (res: Result<
    String,
    DbError,
>)
    ensures
        match address_fault(schema@, table@, z@, x@, y@) {
            Some(text) => res matches Err(DbError::QueryError(t)) && t@ == text,
            None => res matches Ok(q) && q@ == tile_sql(schema@, table@, z@, x@, y@),
        },
{
    if !check_name(schema) {
        return rejected("schema is not a plain name");
    }
    if !check_name(table) {
        return rejected("table is not a plain name");
    }
    if !check_coordinate(z) {
        return rejected("zoom is not a number");
    }
    if !check_coordinate(x) {
        return rejected("column is not a number");
    }
    if !check_coordinate(y) {
        return rejected("row is not a number");
    }
    let mut q = String::from_str("SELECT ST_AsMVT(q, '");
    q.append(table);
    q.append("', 4096, 'geom') FROM (SELECT ST_AsMVTGeom(geom, TileBBox(");
    q.append(z);
    q.append(",");
    q.append(x);
    q.append(",");
    q.append(y);
    q.append(",4326), 4096, 256, true) AS geom FROM ");
    q.append(schema);
    q.append(".");
    q.append(table);
    q.append(") AS q;");
    Ok(q)
}

/// Takes the tile out of the reply to a tile statement: the payload of each
/// row read, or the text of the failure.
///
/// The tile is the payload of the first row, whatever its length: a tile
/// without features is an empty payload and no error. A failure is handed on
/// as a `QueryError` with the same text, and a reply without rows is an
/// `EmptyResultError`.
pub fn get_tile(reply: Result<Vec<Vec<u8>>, String>) -> (res: Result<Vec<u8>, DbError>)
    ensures
        match reply {
            Ok(rows) => if rows.len() == 0 {
                res matches Err(DbError::EmptyResultError)
            } else {
                res matches Ok(tile) && tile == rows[0]
            },
            Err(text) => res matches Err(DbError::QueryError(t)) && t == text,
        },
{
    match reply {
        Err(text) => Err(DbError::QueryError(text)),
        Ok(rows) => {
            let mut rows = rows;
            if rows.len() == 0 {
                Err(DbError::EmptyResultError)
            } else {
                Ok(rows.swap_remove(0))
            }
        },
    }
}

} // verus!

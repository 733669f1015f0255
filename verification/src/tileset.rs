use vstd::prelude::*;
use vstd::string::StringExecFns;
use vstd::hash_map::StringHashMap;
use crate::error::DbError;

verus! {

/// One servable spatial table, as registered in the geometry catalog.
#[derive(Debug)]
pub struct Tileset {
    pub schema: String,
    pub table: String,
    pub geometry_column: String,
    pub srid: i32,
    pub _type: String,
}

/// The mathematical content of a [`Tileset`].
pub struct TilesetView {
    pub schema: Seq<char>,
    pub table: Seq<char>,
    pub geometry_column: Seq<char>,
    pub srid: int,
    pub geometry_type: Seq<char>,
}

impl View for Tileset {
    type V = TilesetView;

    open spec fn view(&self) -> TilesetView {
        TilesetView {
            schema: self.schema@,
            table: self.table@,
            geometry_column: self.geometry_column@,
            srid: self.srid as int,
            geometry_type: self._type@,
        }
    }
}

/// The registry key of the table `table` in schema `schema`: the two names
/// joined by a single dot.
pub open spec fn tileset_key(schema: Seq<char>, table: Seq<char>) -> Seq<char> {
    schema + seq!['.'] + table
}

impl Tileset {
    /// The key of this tileset as a sequence of characters.
    pub open spec fn spec_key(&self) -> Seq<char> {
        tileset_key(self@.schema, self@.table)
    }

    /// The key under which this tileset is registered.
    pub fn key(&self) -> (id: String)
        ensures
            id@ == self.spec_key(),
    {
        let mut id = self.schema.clone();
        id.append(".");
        id.append(self.table.as_str());
        proof {
            reveal_strlit(".");
            assert("."@ =~= seq!['.']);
        }
        id
    }
}

/// The registry that registering `rows` one after another leaves behind: each
/// row stands under its own key, and of two rows with one key the later
/// stays.
pub open spec fn registry_of(rows: Seq<Tileset>) -> Map<Seq<char>, Tileset>
    decreases rows.len(),
{
    if rows.len() == 0 {
        Map::empty()
    } else {
        registry_of(rows.drop_last()).insert(rows.last().spec_key(), rows.last())
    }
}

/// Whether no two of `rows` have the same key.
pub open spec fn keys_distinct(rows: Seq<Tileset>) -> bool {
    forall|i: int, j: int|
        0 <= i < j < rows.len() ==> #[trigger] rows[i].spec_key() != #[trigger] rows[j].spec_key()
}

/// The keys of a registry are the keys of the rows it was built from, and
/// each entry stands under its own key: the schema, a dot, the table.
pub proof fn lemma_registry_keys(rows: Seq<Tileset>)
    ensures
        registry_of(rows).dom().finite(),
        registry_of(rows).len() <= rows.len(),
        forall|k: Seq<char>| #[trigger]
            registry_of(rows).contains_key(k) <==> exists|i: int|
                0 <= i < rows.len() && #[trigger] rows[i].spec_key() == k,
        forall|k: Seq<char>| #[trigger]
            registry_of(rows).contains_key(k) ==> registry_of(rows)[k].spec_key() == k,
    decreases rows.len(),
{
    if rows.len() > 0 {
        let front = rows.drop_last();
        lemma_registry_keys(front);
        assert forall|k: Seq<char>| #[trigger] registry_of(rows).contains_key(k) implies exists|
            i: int,
        |
            0 <= i < rows.len() && #[trigger] rows[i].spec_key() == k by {
            if k == rows.last().spec_key() {
                assert(rows[rows.len() - 1].spec_key() == k);
            } else {
                assert(registry_of(front).contains_key(k));
                let i = choose|i: int| 0 <= i < front.len() && #[trigger] front[i].spec_key() == k;
                assert(rows[i].spec_key() == k);
            }
        }
        assert forall|k: Seq<char>|
            (exists|i: int|
                0 <= i < rows.len() && #[trigger] rows[i].spec_key()
                    == k) implies #[trigger] registry_of(rows).contains_key(k) by {
            let i = choose|i: int| 0 <= i < rows.len() && #[trigger] rows[i].spec_key() == k;
            if i < rows.len() - 1 {
                assert(front[i].spec_key() == k);
            }
        }
    }
}

/// A row that no later row shares its key with is the entry under that key.
pub proof fn lemma_registry_last_wins(rows: Seq<Tileset>, i: int)
    requires
        0 <= i < rows.len(),
        forall|j: int| i < j < rows.len() ==> #[trigger] rows[j].spec_key() != rows[i].spec_key(),
    ensures
        registry_of(rows).contains_key(rows[i].spec_key()),
        registry_of(rows)[rows[i].spec_key()] == rows[i],
    decreases rows.len(),
{
    if i < rows.len() - 1 {
        let front = rows.drop_last();
        assert(front[i] == rows[i]);
        assert forall|j: int| i < j < front.len() implies #[trigger] front[j].spec_key()
            != front[i].spec_key() by {
            assert(front[j] == rows[j]);
        }
        lemma_registry_last_wins(front, i);
        assert(rows[rows.len() - 1].spec_key() != rows[i].spec_key());
    }
}

/// Where no two rows share a key, the registry has one entry for each row,
/// and every row is the entry under its key.
pub proof fn lemma_registry_one_entry_per_row(rows: Seq<Tileset>)
    requires
        keys_distinct(rows),
    ensures
        registry_of(rows).dom().finite(),
        registry_of(rows).len() == rows.len(),
        forall|i: int|
            0 <= i < rows.len() ==> registry_of(rows).contains_key(#[trigger] rows[i].spec_key())
                && registry_of(rows)[rows[i].spec_key()] == rows[i],
    decreases rows.len(),
{
    lemma_registry_keys(rows);
    if rows.len() > 0 {
        let front = rows.drop_last();
        assert forall|i: int, j: int| 0 <= i < j < front.len() implies #[trigger] front[i].spec_key()
            != #[trigger] front[j].spec_key() by {
            assert(front[i] == rows[i] && front[j] == rows[j]);
        }
        lemma_registry_one_entry_per_row(front);
        lemma_registry_keys(front);
        let last_key = rows.last().spec_key();
        if registry_of(front).contains_key(last_key) {
            let i = choose|i: int| 0 <= i < front.len() && #[trigger] front[i].spec_key() == last_key;
            assert(rows[i].spec_key() == rows[rows.len() - 1].spec_key());
        }
        assert forall|i: int| 0 <= i < rows.len() implies registry_of(rows).contains_key(
            #[trigger] rows[i].spec_key(),
        ) && registry_of(rows)[rows[i].spec_key()] == rows[i] by {
            lemma_registry_last_wins(rows, i);
        }
    }
}

/// The servable tilesets, each under its key.
pub struct Tilesets {
    entries: StringHashMap<Tileset>,
}

impl View for Tilesets {
    type V = Map<Seq<char>, Tileset>;

    closed spec fn view(&self) -> Map<Seq<char>, Tileset> {
        self.entries@
    }
}

impl Tilesets {
    #[verifier::type_invariant]
    spec fn well_formed(self) -> bool {
        &&& self.entries@.dom().finite()
        &&& forall|k: Seq<char>| #[trigger]
            self.entries@.contains_key(k) ==> self.entries@[k].spec_key() == k
    }

    /// A registry without entries.
    pub fn new() -> (registry: Tilesets)
        ensures
            registry@ == Map::<Seq<char>, Tileset>::empty(),
    {
        Tilesets { entries: StringHashMap::new() }
    }

    /// The number of tilesets registered.
    pub fn len(&self) -> (n: usize)
        ensures
            self@.dom().finite(),
            n == self@.len(),
    {
        proof {
            use_type_invariant(self);
        }
        self.entries.len()
    }

    /// Whether nothing is registered.
    pub fn is_empty(&self) -> (empty: bool)
        ensures
            empty <==> self@ == Map::<Seq<char>, Tileset>::empty(),
    {
        proof {
            use_type_invariant(self);
            if self@.len() == 0 {
                assert(self@ =~= Map::<Seq<char>, Tileset>::empty());
            }
        }
        self.entries.len() == 0
    }

    /// Whether a tileset stands under `key`.
    pub fn contains_key(&self, key: &str) -> (found: bool)
        ensures
            found == self@.contains_key(key@),
    {
        self.entries.contains_key(key)
    }

    /// The tileset under `key`, if there is one. Its own key is `key`.
    pub fn get(&self, key: &str) -> (found: Option<&Tileset>)
        ensures
            match found {
                Some(tileset) => self@.contains_key(key@) && *tileset == self@[key@]
                    && tileset.spec_key() == key@,
                None => !self@.contains_key(key@),
            },
    {
        proof {
            use_type_invariant(self);
        }
        self.entries.get(key)
    }
}

/// The statement that reads the geometry catalog.
pub open spec fn tilesets_sql() -> Seq<char> {
    "SELECT f_table_schema, f_table_name, f_geometry_column, srid, type FROM geometry_columns;"@
}

/// Writes the statement that reads the geometry catalog: one row for each
/// registered geometry column, with the schema, the table, the column, the
/// spatial reference and the geometry type, in this order.
pub fn tilesets_query() -> (q: &'static str)
    ensures
        q@ == tilesets_sql(),
{
    "SELECT f_table_schema, f_table_name, f_geometry_column, srid, type FROM geometry_columns;"
}

/// Builds the registry from the reply to the catalog statement: the rows read,
/// or the text of the failure.
///
/// A failure is handed on as a `QueryError` with the same text. Rows are
/// registered in the order read, so that of two rows with one key the later
/// stays; an empty catalog gives an empty registry.
pub fn get_tilesets(reply: Result<Vec<Tileset>, String>) -> (res: Result<Tilesets, DbError>)
    ensures
        match reply {
            Ok(rows) => {
                &&& res matches Ok(registry)
                &&& registry@ == registry_of(rows@)
                &&& registry@.dom().finite()
                &&& keys_distinct(rows@) ==> registry@.len() == rows.len()
                &&& forall|k: Seq<char>| #[trigger]
                    registry@.contains_key(k) ==> registry@[k].spec_key() == k
            },
            Err(text) => res matches Err(DbError::QueryError(t)) && t == text,
        },
{
    match reply {
        Err(text) => Err(DbError::QueryError(text)),
        Ok(rows) => {
            let ghost all = rows@;
            let mut entries = StringHashMap::new();
            for row in it: rows
                invariant
                    it.seq() == all,
                    entries@ == registry_of(all.take(it.index() as int)),
            {
                proof {
                    let n = it.index() as int;
                    assert(all.take(n + 1).drop_last() == all.take(n));
                }
                let id = row.key();
                entries.insert(id, row);
            }
            proof {
                assert(all.take(all.len() as int) == all);
                lemma_registry_keys(all);
                if keys_distinct(all) {
                    lemma_registry_one_entry_per_row(all);
                }
            }
            Ok(Tilesets { entries })
        }
    }
}

} // verus!

use vstd::prelude::*;

verus! {

/// A cached row: (method, path, body).
pub type CacheRow = (Seq<char>, Seq<char>, Seq<char>);

#[verifier::external_type_specification]
#[verifier::external_body]
pub struct ExConnection(rusqlite::Connection);

#[verifier::external_type_specification]
#[verifier::external_body]
pub struct ExSqlError(rusqlite::Error);

/// A row of the migration ledger: (name, hash).
pub type LedgerRow = (Seq<char>, Seq<char>);

/// The rows of the `web_cache` table of a connection, in storage (id) order;
/// empty while there is no such table.
pub uninterp spec fn cache_rows(c: rusqlite::Connection) -> Seq<CacheRow>;

/// The rows of the `migrations` ledger table of a connection, in storage (id)
/// order; empty while there is no such table.
pub uninterp spec fn ledger_rows(c: rusqlite::Connection) -> Seq<LedgerRow>;

/// The tables of a connection's main schema, each with the statement that
/// created it.
pub uninterp spec fn table_sql(c: rusqlite::Connection) -> Map<Seq<char>, Seq<char>>;

/// The MD5 digest of some text, written as lower-case hexadecimal.
pub uninterp spec fn md5_hex_of(s: Seq<char>) -> Seq<char>;

/// The body of the first row stored under `(method, path)`, if any.
pub open spec fn first_body(rows: Seq<CacheRow>, method: Seq<char>, path: Seq<char>) -> Option<
    Seq<char>,
>
    decreases rows.len(),
{
    if rows.len() == 0 {
        None
    } else if rows[0].0 == method && rows[0].1 == path {
        Some(rows[0].2)
    } else {
        first_body(rows.drop_first(), method, path)
    }
}

/// Some row is stored under `path`, whatever its method.
pub open spec fn path_taken(rows: Seq<CacheRow>, path: Seq<char>) -> bool {
    exists|i: int| 0 <= i < rows.len() && #[trigger] rows[i].1 == path
}

/// Appending a row leaves earlier answers alone and answers a key that had none.
pub proof fn lemma_first_body_push(
    rows: Seq<CacheRow>,
    row: CacheRow,
    method: Seq<char>,
    path: Seq<char>,
)
    ensures
        first_body(rows.push(row), method, path) == (if first_body(rows, method, path) is Some {
            first_body(rows, method, path)
        } else if row.0 == method && row.1 == path {
            Some(row.2)
        } else {
            None
        }),
    decreases rows.len(),
{
    if rows.len() > 0 {
        assert(rows.push(row)[0] == rows[0]);
        assert(rows.push(row).drop_first() =~= rows.drop_first().push(row));
        lemma_first_body_push(rows.drop_first(), row, method, path);
    } else {
        assert(rows.push(row).drop_first() =~= rows);
        assert(rows.push(row)[0] == row);
    }
}

/// Why a cache operation failed.
#[derive(Debug, PartialEq, Eq, Clone, Copy, Structural)]
pub enum StoreError {
    /// The store could not be opened.
    Open,
    /// A schema migration could not be applied.
    Migration,
    /// A lookup failed.
    Lookup,
    /// An insert was refused, e.g. by the uniqueness constraint on `path`.
    Insert,
}

/// The statement that creates the cache table. It keeps one body per path:
/// the uniqueness constraint is on `path` alone, not on `(method, path)`.
pub const CACHE_TABLE_SQL: &'static str = "CREATE TABLE IF NOT EXISTS web_cache (
                id INTEGER PRIMARY KEY,
                method TEXT NOT NULL,
                path TEXT NOT NULL,
                body TEXT NOT NULL,
                UNIQUE(path)
            )";

/// The statement that creates the migration ledger.
pub const LEDGER_TABLE_SQL: &'static str = "CREATE TABLE IF NOT EXISTS migrations (
            id INTEGER PRIMARY KEY,
            name TEXT NOT NULL,
            hash TEXT NOT NULL,
            UNIQUE(id, hash)
        )";

pub open spec fn cache_table_sql() -> Seq<char> {
    CACHE_TABLE_SQL@
}

pub open spec fn ledger_table_sql() -> Seq<char> {
    LEDGER_TABLE_SQL@
}

/// Table `name` exists and was created by `sql`.
pub open spec fn table_is(tables: Map<Seq<char>, Seq<char>>, name: Seq<char>, sql: Seq<char>) -> bool {
    tables.contains_key(name) && tables[name] == sql
}

/// Every table present is one of the two that this module creates, created
/// by its own statement.
pub open spec fn tables_sound(tables: Map<Seq<char>, Seq<char>>) -> bool {
    forall|k: Seq<char>| #[trigger]
        tables.contains_key(k) ==> (k == "web_cache"@ && tables[k] == cache_table_sql()) || (k
            == "migrations"@ && tables[k] == ledger_table_sql())
}

/// The migrations, as (name, statement), in the order they are applied.
pub open spec fn migration_list() -> Seq<LedgerRow> {
    seq![("create_web_cache"@, cache_table_sql())]
}

/// The ledger row carries `name` or `hash`.
pub open spec fn row_names(row: LedgerRow, name: Seq<char>, hash: Seq<char>) -> bool {
    row.0 == name || row.1 == hash
}

/// Some ledger row carries `name` or `hash`.
pub open spec fn ledger_has(ledger: Seq<LedgerRow>, name: Seq<char>, hash: Seq<char>) -> bool {
    exists|i: int| 0 <= i < ledger.len() && row_names(#[trigger] ledger[i], name, hash)
}

/// The migration `m` is listed in the ledger, by name or by hash.
pub open spec fn is_recorded(ledger: Seq<LedgerRow>, m: LedgerRow) -> bool {
    ledger_has(ledger, m.0, md5_hex_of(m.1))
}

/// The ledger after applying `ms` in order: each migration not yet recorded
/// is recorded as (name, hash of its statement); a recorded one is skipped.
pub open spec fn ledger_after(ledger: Seq<LedgerRow>, ms: Seq<LedgerRow>) -> Seq<LedgerRow>
    decreases ms.len(),
{
    if ms.len() == 0 {
        ledger
    } else {
        let prev = ledger_after(ledger, ms.drop_last());
        let m = ms.last();
        if is_recorded(prev, m) {
            prev
        } else {
            prev.push((m.0, md5_hex_of(m.1)))
        }
    }
}

/// A store that `run_migrations` may be run on: every table present is its
/// own, and a migration recorded in the ledger has its table.
pub open spec fn store_consistent(c: rusqlite::Connection) -> bool {
    &&& tables_sound(table_sql(c))
    &&& forall|k: int|
        0 <= k < migration_list().len() && is_recorded(ledger_rows(c), #[trigger] migration_list()[k])
            ==> table_is(table_sql(c), "web_cache"@, cache_table_sql())
}

/// A store with its schema set up and every migration recorded.
pub open spec fn store_ready(c: rusqlite::Connection) -> bool {
    &&& store_consistent(c)
    &&& table_is(table_sql(c), "web_cache"@, cache_table_sql())
    &&& table_is(table_sql(c), "migrations"@, ledger_table_sql())
    &&& forall|k: int|
        0 <= k < migration_list().len() ==> is_recorded(
            ledger_rows(c),
            #[trigger] migration_list()[k],
        )
}

/// After applying a list of migrations, every one of them is recorded.
pub proof fn lemma_ledger_after_records_all(ledger: Seq<LedgerRow>, ms: Seq<LedgerRow>)
    ensures
        forall|k: int| 0 <= k < ms.len() ==> is_recorded(ledger_after(ledger, ms), #[trigger] ms[k]),
    decreases ms.len(),
{
    if ms.len() > 0 {
        let prev = ledger_after(ledger, ms.drop_last());
        lemma_ledger_after_records_all(ledger, ms.drop_last());
        let m = ms.last();
        let row = (m.0, md5_hex_of(m.1));
        let next = ledger_after(ledger, ms);
        assert(next == (if is_recorded(prev, m) { prev } else { prev.push(row) }));
        assert forall|k: int| 0 <= k < ms.len() implies is_recorded(next, #[trigger] ms[k]) by {
            if k < ms.len() - 1 {
                assert(ms.drop_last()[k] == ms[k]);
                assert(is_recorded(prev, ms[k]));
                if !is_recorded(prev, m) {
                    let i = choose|i: int|
                        0 <= i < prev.len() && row_names(#[trigger] prev[i], ms[k].0, md5_hex_of(ms[k].1));
                    assert(next[i] == prev[i]);
                }
            } else if !is_recorded(prev, m) {
                assert(next[prev.len() as int] == row);
            }
        }
    }
}

/// Applying migrations that are all recorded already changes nothing.
pub proof fn lemma_ledger_after_recorded(ledger: Seq<LedgerRow>, ms: Seq<LedgerRow>)
    requires
        forall|k: int| 0 <= k < ms.len() ==> is_recorded(ledger, #[trigger] ms[k]),
    ensures
        ledger_after(ledger, ms) == ledger,
    decreases ms.len(),
{
    if ms.len() > 0 {
        assert forall|k: int| 0 <= k < ms.drop_last().len() implies is_recorded(
            ledger,
            #[trigger] ms.drop_last()[k],
        ) by {
            assert(ms.drop_last()[k] == ms[k]);
        }
        lemma_ledger_after_recorded(ledger, ms.drop_last());
        assert(is_recorded(ledger, ms[ms.len() - 1]));
    }
}

/// Running the migrations a second time changes the ledger no further.
pub proof fn lemma_migrations_idempotent(ledger: Seq<LedgerRow>, ms: Seq<LedgerRow>)
    ensures
        ledger_after(ledger_after(ledger, ms), ms) == ledger_after(ledger, ms),
{
    lemma_ledger_after_records_all(ledger, ms);
    lemma_ledger_after_recorded(ledger_after(ledger, ms), ms);
}

/// One schema-setup statement, identified by its name and the hash of its text.
pub struct Migration {
    pub name: &'static str,
    pub sql: &'static str,
}

/// The schema-setup statements of the cache, in the order they are applied.
pub fn migrations() -> (r: Vec<Migration>)
    ensures
        r@.len() == migration_list().len(),
        forall|k: int|
            0 <= k < r@.len() ==> (#[trigger] r@[k].name@, r@[k].sql@) == migration_list()[k],
{
    let r = vec![Migration { name: "create_web_cache", sql: CACHE_TABLE_SQL }];
    proof {
        reveal_strlit("create_web_cache");
        assert((r@[0].name@, r@[0].sql@) == migration_list()[0]);
    }
    r
}

/// Relies on rusqlite::Connection::open_in_memory: a fresh in-memory database
/// has no tables and so no rows.
#[verifier::external_body]
pub(crate) fn open_store() -> (r: Result<rusqlite::Connection, rusqlite::Error>)
    ensures
        r matches Ok(c) ==> table_sql(c).dom() == Set::<Seq<char>>::empty(),
        r matches Ok(c) ==> cache_rows(c) == Seq::<CacheRow>::empty(),
        r matches Ok(c) ==> ledger_rows(c) == Seq::<LedgerRow>::empty(),
{
    rusqlite::Connection::open_in_memory()
}

/// Relies on md5::compute, formatted with `{:x}`: two lower-case hex digits
/// per digest byte.
#[verifier::external_body]
fn md5_hex(s: &str) -> (r: String)
    ensures
        r@ == md5_hex_of(s@),
        r@.len() == 32,
{
    format!("{:x}", md5::compute(s))
}

/// Relies on rusqlite::Connection::execute, with no parameters, of one of the
/// two `CREATE TABLE IF NOT EXISTS` statements, the one that creates `table`:
/// it adds the table, empty, where there is none of that name, and changes
/// nothing otherwise.
#[verifier::external_body]
fn create_table(c: &mut rusqlite::Connection, table: &str, sql: &str) -> (r: Result<
    usize,
    rusqlite::Error,
>)
    requires
        (table@ == "web_cache"@ && sql@ == cache_table_sql()) || (table@ == "migrations"@ && sql@
            == ledger_table_sql()),
    ensures
        cache_rows(*final(c)) == cache_rows(*old(c)),
        ledger_rows(*final(c)) == ledger_rows(*old(c)),
        r is Ok ==> table_sql(*final(c)) == (if table_sql(*old(c)).contains_key(table@) {
            table_sql(*old(c))
        } else {
            table_sql(*old(c)).insert(table@, sql@)
        }),
        r is Err ==> table_sql(*final(c)) == table_sql(*old(c)),
{
    let _ = table;
    c.execute(sql, ())
}

/// Relies on rusqlite::Connection::query_row of a `COUNT(*)` over the ledger
/// rows that carry `name` or `hash`.
#[verifier::external_body]
fn count_applied(c: &rusqlite::Connection, name: &str, hash: &str) -> (r: Result<
    i64,
    rusqlite::Error,
>)
    requires
        table_is(table_sql(*c), "migrations"@, ledger_table_sql()),
    ensures
        r matches Ok(n) ==> (n == 0 <==> !ledger_has(ledger_rows(*c), name@, hash@)),
{
    c.query_row(
        "SELECT COUNT(*) FROM migrations WHERE name = ?1 OR hash = ?2",
        (name, hash),
        |row| row.get(0),
    )
}

/// Relies on rusqlite::Connection::query_row for the first `web_cache` row
/// under `(method, path)` in id order, compared exactly (the table's columns
/// use the default binary collation); `QueryReturnedNoRows` means none.
#[verifier::external_body]
fn select_first_body(c: &rusqlite::Connection, method: &str, path: &str) -> (r: Result<
    Option<String>,
    rusqlite::Error,
>)
    requires
        table_is(table_sql(*c), "web_cache"@, cache_table_sql()),
    ensures
        r matches Ok(o) ==> match o {
            Some(b) => first_body(cache_rows(*c), method@, path@) == Some(b@),
            None => first_body(cache_rows(*c), method@, path@) is None,
        },
{
    match c.query_row(
        "SELECT body FROM web_cache WHERE method = ?1 AND path = ?2 ORDER BY id LIMIT 1",
        (method, path),
        |row| row.get::<usize, String>(0),
    ) {
        Ok(b) => Ok(Some(b)),
        Err(rusqlite::Error::QueryReturnedNoRows) => Ok(None),
        Err(e) => Err(e),
    }
}

/// Relies on rusqlite::Connection::execute of one INSERT into the `web_cache`
/// table that `CACHE_TABLE_SQL` created: the row is appended on success (the
/// `INTEGER PRIMARY KEY` gets the next id), a failed statement changes
/// nothing, and `UNIQUE(path)` refuses a path that is already stored.
#[verifier::external_body]
fn insert_row(c: &mut rusqlite::Connection, method: &str, path: &str, body: &str) -> (r: Result<
    usize,
    rusqlite::Error,
>)
    requires
        table_is(table_sql(*old(c)), "web_cache"@, cache_table_sql()),
    ensures
        table_sql(*final(c)) == table_sql(*old(c)),
        ledger_rows(*final(c)) == ledger_rows(*old(c)),
        r is Ok ==> cache_rows(*final(c)) == cache_rows(*old(c)).push((method@, path@, body@)),
        r is Err ==> cache_rows(*final(c)) == cache_rows(*old(c)),
        path_taken(cache_rows(*old(c)), path@) ==> r is Err,
{
    c.execute(
        "INSERT INTO web_cache (method, path, body) VALUES (?1, ?2, ?3)",
        (method, path, body),
    )
}

/// Relies on rusqlite::Connection::execute of one INSERT into the ledger
/// table that `LEDGER_TABLE_SQL` created: the row is appended on success, a
/// failed statement changes nothing.
#[verifier::external_body]
fn record_applied(c: &mut rusqlite::Connection, name: &str, hash: &str) -> (r: Result<
    usize,
    rusqlite::Error,
>)
    requires
        table_is(table_sql(*old(c)), "migrations"@, ledger_table_sql()),
    ensures
        table_sql(*final(c)) == table_sql(*old(c)),
        cache_rows(*final(c)) == cache_rows(*old(c)),
        r is Ok ==> ledger_rows(*final(c)) == ledger_rows(*old(c)).push((name@, hash@)),
        r is Err ==> ledger_rows(*final(c)) == ledger_rows(*old(c)),
{
    c.execute("INSERT INTO migrations (name, hash) VALUES (?1, ?2)", (name, hash))
}

/// Sets up the ledger, then applies in order every migration whose name or
/// hash the ledger does not yet hold, recording each one applied. The cache's
/// rows are never touched; on success the store is ready and a second run
/// changes nothing. A failing statement ends the run with an error.
pub fn run_migrations(con: &mut rusqlite::Connection) -> (r: Result<(), StoreError>)
    requires
        store_consistent(*old(con)),
    ensures
        cache_rows(*final(con)) == cache_rows(*old(con)),
        r matches Err(e) ==> e == StoreError::Migration,
        r is Ok ==> store_ready(*final(con)),
        r is Ok ==> ledger_rows(*final(con)) == ledger_after(ledger_rows(*old(con)), migration_list()),
        r is Ok && store_ready(*old(con)) ==> ledger_rows(*final(con)) == ledger_rows(*old(con))
            && table_sql(*final(con)) == table_sql(*old(con)),
{
    let ghost c0 = *con;
    let ghost l0 = ledger_rows(c0);
    let ghost t0 = table_sql(c0);
    proof {
        reveal_strlit("web_cache");
        reveal_strlit("migrations");
        assert("web_cache"@.len() != "migrations"@.len());
        assert("web_cache"@ != "migrations"@);
    }
    if create_table(con, "migrations", LEDGER_TABLE_SQL).is_err() {
        return Err(StoreError::Migration);
    }
    let all = migrations();
    let ghost ms = migration_list();
    let mut i: usize = 0;
    while i < all.len()
        invariant
            i <= all@.len(),
            all@.len() == ms.len(),
            ms == migration_list(),
            forall|k: int| 0 <= k < all@.len() ==> (#[trigger] all@[k].name@, all@[k].sql@) == ms[k],
            c0 == *old(con),
            l0 == ledger_rows(c0),
            t0 == table_sql(c0),
            cache_rows(*con) == cache_rows(c0),
            "web_cache"@ != "migrations"@,
            table_is(table_sql(*con), "migrations"@, ledger_table_sql()),
            store_consistent(*con),
            ledger_rows(*con) == ledger_after(l0, ms.take(i as int)),
            store_ready(c0) ==> ledger_rows(*con) == l0 && table_sql(*con) == t0,
        decreases all@.len() - i,
    {
        let migration = &all[i];
        proof {
            assert((all@[i as int].name@, all@[i as int].sql@) == ms[i as int]);
            assert(ms.take(i + 1).drop_last() =~= ms.take(i as int));
            assert(ms.take(i + 1).last() == ms[i as int]);
        }
        let hash = md5_hex(migration.sql);
        let count = match count_applied(con, migration.name, hash.as_str()) {
            Ok(n) => n,
            Err(_) => {
                return Err(StoreError::Migration);
            },
        };
        if count == 0 {
            proof {
                if store_ready(c0) {
                    assert(0 <= i < migration_list().len());
                    assert(is_recorded(l0, migration_list()[i as int]));
                    assert(ledger_has(ledger_rows(*con), migration.name@, hash@));
                }
            }
            let ghost before = table_sql(*con);
            proof {
                assert(tables_sound(before));
                if before.contains_key("web_cache"@) {
                    assert(before["web_cache"@] == cache_table_sql());
                }
            }
            if create_table(con, "web_cache", migration.sql).is_err() {
                return Err(StoreError::Migration);
            }
            proof {
                let t = table_sql(*con);
                assert(table_is(t, "web_cache"@, cache_table_sql()));
                assert forall|k: Seq<char>| #[trigger] t.contains_key(k) implies (k == "web_cache"@
                    && t[k] == cache_table_sql()) || (k == "migrations"@ && t[k]
                    == ledger_table_sql()) by {
                    if k != "web_cache"@ {
                        assert(before.contains_key(k));
                    }
                }
            }
            if record_applied(con, migration.name, hash.as_str()).is_err() {
                return Err(StoreError::Migration);
            }
            proof {
                let l = ledger_rows(*con);
                assert(l[l.len() - 1] == (ms[i as int].0, md5_hex_of(ms[i as int].1)));
                assert(is_recorded(l, ms[i as int]));
            }
        }
        i = i + 1;
    }
    proof {
        assert(ms.take(ms.len() as int) =~= ms);
        lemma_ledger_after_records_all(l0, ms);
        assert(is_recorded(ledger_rows(*con), ms[0]));
    }
    Ok(())
}

/// A cached response body and the key it is stored under.
pub struct WebCache {
    pub method: String,
    pub path: String,
    pub body: String,
}

/// Looks up the first entry stored under `(method, path)`.
pub fn retrieve_web_cache(db: &rusqlite::Connection, method: &str, path: &str) -> (r: Result<
    Option<WebCache>,
    StoreError,
>)
    requires
        table_is(table_sql(*db), "web_cache"@, cache_table_sql()),
    ensures
        r matches Err(e) ==> e == StoreError::Lookup,
        r matches Ok(Some(w)) ==> w.method@ == method@ && w.path@ == path@ && first_body(
            cache_rows(*db),
            method@,
            path@,
        ) == Some(w.body@),
        r matches Ok(None) ==> first_body(cache_rows(*db), method@, path@) is None,
{
    match select_first_body(db, method, path) {
        Ok(Some(body)) => Ok(
            Some(WebCache { method: method.to_owned(), path: path.to_owned(), body }),
        ),
        Ok(None) => Ok(None),
        Err(_) => Err(StoreError::Lookup),
    }
}

/// Stores `body` under `(method, path)`. The store keeps one body per path:
/// a path that already has an entry, under any method, is refused.
pub fn insert_web_cache(db: &mut rusqlite::Connection, method: &str, path: &str, body: &str) -> (r:
    Result<(), StoreError>)
    requires
        table_is(table_sql(*old(db)), "web_cache"@, cache_table_sql()),
    ensures
        table_sql(*final(db)) == table_sql(*old(db)),
        ledger_rows(*final(db)) == ledger_rows(*old(db)),
        r is Ok ==> cache_rows(*final(db)) == cache_rows(*old(db)).push((method@, path@, body@)),
        r is Err ==> cache_rows(*final(db)) == cache_rows(*old(db)),
        r matches Err(e) ==> e == StoreError::Insert,
        path_taken(cache_rows(*old(db)), path@) ==> r is Err,
{
    match insert_row(db, method, path, body) {
        Ok(_) => Ok(()),
        Err(_) => Err(StoreError::Insert),
    }
}

} // verus!

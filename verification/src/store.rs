//! Durable storage of sessions and their messages, with online schema
//! upgrades.
//!
//! The store is a SQLite file holding two tables: sessions, keyed by id, and
//! messages, keyed by id and owned by a session through a foreign key with
//! cascading delete.  The file's contents are modelled by two maps from id to
//! record view; every operation's contract says what it does to those maps.
//! Opening a file created under an older schema adds the missing columns with
//! their documented defaults and touches nothing else.  Nothing about the
//! file is taken on faith: opening reads the actual schema — both tables'
//! columns and the cascade declaration — and checks the data's referential
//! integrity, refusing the file on any mismatch, so that every later
//! contract speaks of a store known to have its safeguards in place.
//!
//! Timestamps enter as plain integer seconds supplied by the caller, and the
//! temperature travels as thousandths (0.7 is 700); the file keeps the
//! fraction, the conversion happens in the SQL.  The store is single-writer:
//! one owner at a time.

use vstd::prelude::*;

verus! {

/// A stored conversation: title, model, system prompt, temperature in
/// thousandths, and its timestamps in seconds.
#[derive(Debug, Clone)]
pub struct ChatSession {
    pub id: String,
    pub title: String,
    pub model: String,
    pub system_prompt: String,
    pub temperature_milli: u32,
    pub created_at: i64,
    pub updated_at: i64,
}

/// What the store holds under a session's id.
#[verifier::ext_equal]
pub ghost struct SessionView {
    pub title: Seq<char>,
    pub model: Seq<char>,
    pub system_prompt: Seq<char>,
    pub temperature_milli: u32,
    pub created_at: int,
    pub updated_at: int,
}

impl View for ChatSession {
    type V = SessionView;

    open spec fn view(&self) -> SessionView {
        SessionView {
            title: self.title@,
            model: self.model@,
            system_prompt: self.system_prompt@,
            temperature_milli: self.temperature_milli,
            created_at: self.created_at as int,
            updated_at: self.updated_at as int,
        }
    }
}

/// One stored message of a session.
#[derive(Debug, Clone)]
pub struct ChatMessage {
    pub id: String,
    pub session_id: String,
    pub role: String,
    pub content: String,
    pub created_at: i64,
    pub tokens: Option<u32>,
}

/// What the store holds under a message's id.
#[verifier::ext_equal]
pub ghost struct MessageView {
    pub session_id: Seq<char>,
    pub role: Seq<char>,
    pub content: Seq<char>,
    pub created_at: int,
    pub tokens: Option<u32>,
}

impl View for ChatMessage {
    type V = MessageView;

    open spec fn view(&self) -> MessageView {
        MessageView {
            session_id: self.session_id@,
            role: self.role@,
            content: self.content@,
            created_at: self.created_at as int,
            tokens: self.tokens,
        }
    }
}

/// A storage failure, carrying the backing store's message.
#[derive(Debug, Clone)]
pub struct StoreError {
    pub message: String,
}

#[verifier::external_type_specification]
#[verifier::external_body]
pub struct ExConnection(rusqlite::Connection);

/// A handle on the storage file.
pub struct Database {
    conn: rusqlite::Connection,
}

/// The sessions the store holds, keyed by the id column.  Where the sessions
/// table does not exist the map is empty; where a row predates a column, the
/// view carries that column's documented default.
pub uninterp spec fn db_sessions(db: &Database) -> Map<Seq<char>, SessionView>;

/// The messages the store holds, keyed by the id column.  Where the messages
/// table does not exist the map is empty.
pub uninterp spec fn db_messages(db: &Database) -> Map<Seq<char>, MessageView>;

/// Foreign-key enforcement is switched on for this connection.
pub uninterp spec fn db_fk_enforced(db: &Database) -> bool;

/// The sessions table exists and has at least the first version's columns:
/// id, title, model, created_at, updated_at.
pub uninterp spec fn db_sessions_table_ok(db: &Database) -> bool;

/// The messages table exists and has at least its columns: id, session_id,
/// role, content, created_at, tokens.
pub uninterp spec fn db_messages_table_ok(db: &Database) -> bool;

/// The messages table declares a foreign key from its session_id column to
/// the sessions table's id column with cascading delete.
pub uninterp spec fn db_cascade_configured(db: &Database) -> bool;

/// The sessions table has the system prompt column.
pub uninterp spec fn db_has_prompt_column(db: &Database) -> bool;

/// The sessions table has the temperature column.
pub uninterp spec fn db_has_temperature_column(db: &Database) -> bool;

/// The schema is current and its safeguards are live: both tables with every
/// column, the cascading foreign key declared, and enforcement on.  Opening
/// a store verifies each part against the file rather than assuming it.
pub open spec fn db_schema_ready(db: &Database) -> bool {
    db_fk_enforced(db) && db_sessions_table_ok(db) && db_messages_table_ok(db)
        && db_cascade_configured(db) && db_has_prompt_column(db) && db_has_temperature_column(db)
}

/// Referential integrity of the data: every stored message's owning session
/// exists.  Opening a store checks it against the file; every operation
/// preserves it, which the methods prove rather than assume.
pub open spec fn db_integrity(db: &Database) -> bool {
    forall|k: Seq<char>|
        #[trigger] db_messages(db).dom().contains(k) ==> db_sessions(db).dom().contains(
            db_messages(db)[k].session_id,
        )
}

/// A store fit for use: current schema, live safeguards, and referential
/// integrity holding of the data.
pub open spec fn db_ready(db: &Database) -> bool {
    db_schema_ready(db) && db_integrity(db)
}

/// The messages map without the messages of one session.
pub open spec fn drop_session_messages(
    m: Map<Seq<char>, MessageView>,
    sid: Seq<char>,
) -> Map<Seq<char>, MessageView> {
    Map::new(|k: Seq<char>| m.dom().contains(k) && m[k].session_id != sid, |k: Seq<char>| m[k])
}

/// Relies on rusqlite's `Connection::open`: opens or creates a database file
/// at this path.  Nothing is assumed about what the file holds.
#[verifier::external_body]
fn connect(path: &str) -> (r: Result<Database, StoreError>) {
    match rusqlite::Connection::open(path) {
        Ok(conn) => Ok(Database { conn }),
        Err(e) => Err(StoreError { message: format!("{}", e) }),
    }
}

/// Relies on rusqlite's `pragma_update` and `execute`: switches foreign-key
/// enforcement on and runs `CREATE TABLE IF NOT EXISTS` for both tables and
/// `CREATE INDEX IF NOT EXISTS` for the lookup index.  These create what is
/// missing and never touch existing rows or columns — in particular, a
/// pre-existing table of either name is left exactly as it is, whatever its
/// shape, so nothing is claimed of the tables here: the opening sequence
/// reads the file's actual schema afterwards and errs on a mismatch.
#[verifier::external_body]
fn init_schema(db: &mut Database) -> (r: Result<(), StoreError>)
    ensures
        r is Ok ==> db_fk_enforced(&*final(db)),
        r is Ok ==> db_sessions(&*final(db)) == db_sessions(&*old(db)),
        r is Ok ==> db_messages(&*final(db)) == db_messages(&*old(db)),
        r is Err ==> db_sessions(&*final(db)) == db_sessions(&*old(db)),
        r is Err ==> db_messages(&*final(db)) == db_messages(&*old(db)),
{
    let r = (|| -> rusqlite::Result<()> {
        db.conn.pragma_update(None, "foreign_keys", true)?;
        db.conn.execute("CREATE TABLE IF NOT EXISTS chat_sessions (id TEXT PRIMARY KEY, title TEXT NOT NULL, model TEXT NOT NULL, system_prompt TEXT NOT NULL DEFAULT 'You are a helpful assistant.', temperature REAL NOT NULL DEFAULT 0.7, created_at INTEGER NOT NULL, updated_at INTEGER NOT NULL)", ())?;
        db.conn.execute("CREATE TABLE IF NOT EXISTS chat_messages (id TEXT PRIMARY KEY, session_id TEXT NOT NULL, role TEXT NOT NULL, content TEXT NOT NULL, created_at INTEGER NOT NULL, tokens INTEGER, FOREIGN KEY (session_id) REFERENCES chat_sessions(id) ON DELETE CASCADE)", ())?;
        db.conn.execute("CREATE INDEX IF NOT EXISTS idx_messages_session ON chat_messages(session_id)", ())?;
        Ok(())
    })();
    r.map_err(|e| StoreError { message: format!("{}", e) })
}

/// Relies on rusqlite's `prepare` and `query_map` over `PRAGMA table_info`:
/// returns the names of the sessions table's columns (none where the table
/// does not exist), so what the report contains decides each column name and
/// the table's base shape.
#[verifier::external_body]
fn session_columns(db: &Database) -> (r: Result<Vec<String>, StoreError>)
    ensures
        r matches Ok(cols) ==> (cols@.map_values(|s: String| s@).contains("system_prompt"@)
            == db_has_prompt_column(db)),
        r matches Ok(cols) ==> (cols@.map_values(|s: String| s@).contains("temperature"@)
            == db_has_temperature_column(db)),
        r matches Ok(cols) ==> ((cols@.map_values(|s: String| s@).contains("id"@)
            && cols@.map_values(|s: String| s@).contains("title"@) && cols@.map_values(
            |s: String| s@,
        ).contains("model"@) && cols@.map_values(|s: String| s@).contains("created_at"@)
            && cols@.map_values(|s: String| s@).contains("updated_at"@))
            == db_sessions_table_ok(db)),
{
    let r = (|| -> rusqlite::Result<Vec<String>> {
        let mut stmt = db.conn.prepare("PRAGMA table_info(chat_sessions)")?;
        let cols = stmt.query_map((), |row| row.get(1))?.collect();
        cols
    })();
    r.map_err(|e| StoreError { message: format!("{}", e) })
}

/// Relies on rusqlite's `prepare` and `query_map` over `PRAGMA table_info`:
/// returns the names of the messages table's columns (none where the table
/// does not exist), so what the report contains decides the table's shape.
#[verifier::external_body]
fn message_columns(db: &Database) -> (r: Result<Vec<String>, StoreError>)
    ensures
        r matches Ok(cols) ==> ((cols@.map_values(|s: String| s@).contains("id"@)
            && cols@.map_values(|s: String| s@).contains("session_id"@) && cols@.map_values(
            |s: String| s@,
        ).contains("role"@) && cols@.map_values(|s: String| s@).contains("content"@)
            && cols@.map_values(|s: String| s@).contains("created_at"@) && cols@.map_values(
            |s: String| s@,
        ).contains("tokens"@)) == db_messages_table_ok(db)),
{
    let r = (|| -> rusqlite::Result<Vec<String>> {
        let mut stmt = db.conn.prepare("PRAGMA table_info(chat_messages)")?;
        let cols = stmt.query_map((), |row| row.get(1))?.collect();
        cols
    })();
    r.map_err(|e| StoreError { message: format!("{}", e) })
}

/// One foreign key declared on the messages table, as the file reports it.
struct ForeignKeyInfo {
    parent_table: String,
    from_column: String,
    to_column: Option<String>,
    on_delete: String,
}

/// The declaration the schema needs: session_id references the sessions
/// table's id column with cascading delete.
spec fn is_cascade_entry(f: ForeignKeyInfo) -> bool {
    &&& f.parent_table@ == "chat_sessions"@
    &&& f.from_column@ == "session_id"@
    &&& f.to_column matches Some(c) && c@ == "id"@
    &&& f.on_delete@ == "CASCADE"@
}

/// Relies on rusqlite's `prepare` and `query_map` over `PRAGMA
/// foreign_key_list(chat_messages)`: one row per declared foreign key (none
/// where the table does not exist or declares none), each carrying the
/// referenced table, the referencing and referenced columns, and the delete
/// action, so what the report contains decides whether the cascade is
/// declared.
#[verifier::external_body]
fn foreign_key_listing(db: &Database) -> (r: Result<Vec<ForeignKeyInfo>, StoreError>)
    ensures
        r matches Ok(v) ==> ((exists|i: int| 0 <= i < v@.len() && is_cascade_entry(#[trigger] v@[i]))
            == db_cascade_configured(db)),
{
    let r = (|| -> rusqlite::Result<Vec<ForeignKeyInfo>> {
        let mut stmt = db.conn.prepare("PRAGMA foreign_key_list(chat_messages)")?;
        let rows = stmt.query_map((), |row| Ok(ForeignKeyInfo { parent_table: row.get(2)?, from_column: row.get(3)?, to_column: row.get(4)?, on_delete: row.get(6)? }))?.collect();
        rows
    })();
    r.map_err(|e| StoreError { message: format!("{}", e) })
}

/// Relies on rusqlite's `prepare` and `query_map` over `PRAGMA
/// foreign_key_check(chat_messages)`: one row per message row that violates
/// a declared foreign key.  With the cascade declaration present, an empty
/// report means every message's owning session exists.
#[verifier::external_body]
fn foreign_key_violations(db: &Database) -> (r: Result<Vec<String>, StoreError>)
    requires
        db_sessions_table_ok(db),
        db_messages_table_ok(db),
        db_cascade_configured(db),
    ensures
        r matches Ok(v) && v@.len() == 0 ==> db_integrity(db),
{
    let r = (|| -> rusqlite::Result<Vec<String>> {
        let mut stmt = db.conn.prepare("PRAGMA foreign_key_check(chat_messages)")?;
        let rows = stmt.query_map((), |row| row.get(0))?.collect();
        rows
    })();
    r.map_err(|e| StoreError { message: format!("{}", e) })
}

/// Relies on rusqlite's `execute` of `ALTER TABLE ... ADD COLUMN` with a
/// default: the new column appears with the default on every existing row
/// (so the rows' views, which already read the default, do not change), and
/// nothing else is touched; on failure the statement has no effect.
#[verifier::external_body]
fn add_prompt_column(db: &mut Database) -> (r: Result<(), StoreError>)
    ensures
        r is Ok ==> db_has_prompt_column(&*final(db)),
        r is Ok ==> db_fk_enforced(&*final(db)) == db_fk_enforced(&*old(db)),
        r is Ok ==> db_sessions_table_ok(&*final(db)) == db_sessions_table_ok(&*old(db)),
        r is Ok ==> db_messages_table_ok(&*final(db)) == db_messages_table_ok(&*old(db)),
        r is Ok ==> db_cascade_configured(&*final(db)) == db_cascade_configured(&*old(db)),
        r is Ok ==> db_has_temperature_column(&*final(db)) == db_has_temperature_column(&*old(db)),
        r is Ok ==> db_sessions(&*final(db)) == db_sessions(&*old(db)),
        r is Ok ==> db_messages(&*final(db)) == db_messages(&*old(db)),
        r is Err ==> *final(db) == *old(db),
{
    match db.conn.execute(
        "ALTER TABLE chat_sessions ADD COLUMN system_prompt TEXT NOT NULL DEFAULT 'You are a helpful assistant.'",
        (),
    ) {
        Ok(_) => Ok(()),
        Err(e) => Err(StoreError { message: format!("{}", e) }),
    }
}

/// Relies on rusqlite's `execute` of `ALTER TABLE ... ADD COLUMN` with a
/// default, as for the system prompt column.
#[verifier::external_body]
fn add_temperature_column(db: &mut Database) -> (r: Result<(), StoreError>)
    ensures
        r is Ok ==> db_has_temperature_column(&*final(db)),
        r is Ok ==> db_fk_enforced(&*final(db)) == db_fk_enforced(&*old(db)),
        r is Ok ==> db_sessions_table_ok(&*final(db)) == db_sessions_table_ok(&*old(db)),
        r is Ok ==> db_messages_table_ok(&*final(db)) == db_messages_table_ok(&*old(db)),
        r is Ok ==> db_cascade_configured(&*final(db)) == db_cascade_configured(&*old(db)),
        r is Ok ==> db_has_prompt_column(&*final(db)) == db_has_prompt_column(&*old(db)),
        r is Ok ==> db_sessions(&*final(db)) == db_sessions(&*old(db)),
        r is Ok ==> db_messages(&*final(db)) == db_messages(&*old(db)),
        r is Err ==> *final(db) == *old(db),
{
    match db.conn.execute(
        "ALTER TABLE chat_sessions ADD COLUMN temperature REAL NOT NULL DEFAULT 0.7",
        (),
    ) {
        Ok(_) => Ok(()),
        Err(e) => Err(StoreError { message: format!("{}", e) }),
    }
}

/// Whether one of the column names is this one.
fn column_present(cols: &Vec<String>, name: &String) -> (r: bool)
    ensures
        r == cols@.map_values(|s: String| s@).contains(name@),
{
    let mut i: usize = 0;
    while i < cols.len()
        invariant
            i <= cols@.len(),
            forall|j: int| 0 <= j < i ==> cols@[j]@ != name@,
        decreases cols@.len() - i,
    {
        if cols[i].eq(name) {
            proof {
                assert(cols@.map_values(|s: String| s@)[i as int] == name@);
            }
            return true;
        }
        i = i + 1;
    }
    proof {
        let mapped = cols@.map_values(|s: String| s@);
        if mapped.contains(name@) {
            let j = choose|j: int| 0 <= j < mapped.len() && #[trigger] mapped[j] == name@;
            assert(cols@[j]@ == name@);
        }
    }
    false
}

/// Which of the later columns a sessions table with these columns still
/// lacks: first the system prompt, then the temperature.
pub fn plan_migrations(cols: &Vec<String>) -> (r: (bool, bool))
    ensures
        r.0 == !cols@.map_values(|s: String| s@).contains("system_prompt"@),
        r.1 == !cols@.map_values(|s: String| s@).contains("temperature"@),
{
    let prompt_name: String = String::from_str("system_prompt");
    let temperature_name: String = String::from_str("temperature");
    let has_prompt = column_present(cols, &prompt_name);
    let has_temperature = column_present(cols, &temperature_name);
    (!has_prompt, !has_temperature)
}

/// Whether a sessions-table report holds every first-version column.
fn has_session_base_columns(cols: &Vec<String>) -> (r: bool)
    ensures
        r == (cols@.map_values(|s: String| s@).contains("id"@) && cols@.map_values(|s: String| s@)
            .contains("title"@) && cols@.map_values(|s: String| s@).contains("model"@)
            && cols@.map_values(|s: String| s@).contains("created_at"@) && cols@.map_values(
            |s: String| s@,
        ).contains("updated_at"@)),
{
    let has_id = column_present(cols, &String::from_str("id"));
    let has_title = column_present(cols, &String::from_str("title"));
    let has_model = column_present(cols, &String::from_str("model"));
    let has_created = column_present(cols, &String::from_str("created_at"));
    let has_updated = column_present(cols, &String::from_str("updated_at"));
    has_id && has_title && has_model && has_created && has_updated
}

/// Whether a messages-table report holds every column.
fn has_message_base_columns(cols: &Vec<String>) -> (r: bool)
    ensures
        r == (cols@.map_values(|s: String| s@).contains("id"@) && cols@.map_values(|s: String| s@)
            .contains("session_id"@) && cols@.map_values(|s: String| s@).contains("role"@)
            && cols@.map_values(|s: String| s@).contains("content"@) && cols@.map_values(
            |s: String| s@,
        ).contains("created_at"@) && cols@.map_values(|s: String| s@).contains("tokens"@)),
{
    let has_id = column_present(cols, &String::from_str("id"));
    let has_session = column_present(cols, &String::from_str("session_id"));
    let has_role = column_present(cols, &String::from_str("role"));
    let has_content = column_present(cols, &String::from_str("content"));
    let has_created = column_present(cols, &String::from_str("created_at"));
    let has_tokens = column_present(cols, &String::from_str("tokens"));
    has_id && has_session && has_role && has_content && has_created && has_tokens
}

/// Whether this declared foreign key is the cascade the schema needs.
fn matches_cascade_entry(f: &ForeignKeyInfo) -> (r: bool)
    ensures
        r == is_cascade_entry(*f),
{
    let to_ok = match &f.to_column {
        Some(c) => c.eq(&String::from_str("id")),
        None => false,
    };
    f.parent_table.eq(&String::from_str("chat_sessions")) && f.from_column.eq(
        &String::from_str("session_id"),
    ) && to_ok && f.on_delete.eq(&String::from_str("CASCADE"))
}

/// Whether the listing declares the cascade the schema needs.
fn has_cascade_entry(v: &Vec<ForeignKeyInfo>) -> (r: bool)
    ensures
        r == (exists|i: int| 0 <= i < v@.len() && is_cascade_entry(#[trigger] v@[i])),
{
    let mut i: usize = 0;
    while i < v.len()
        invariant
            i <= v@.len(),
            forall|j: int| 0 <= j < i ==> !is_cascade_entry(#[trigger] v@[j]),
        decreases v@.len() - i,
    {
        if matches_cascade_entry(&v[i]) {
            return true;
        }
        i = i + 1;
    }
    false
}

/// Relies on uuid's `Uuid::new_v4` and its rendering: a fresh random
/// version-4 UUID in the hyphenated form of 36 characters.  Randomness gives
/// no uniqueness promise; the store's primary keys do the enforcing.
#[verifier::external_body]
fn fresh_id() -> (r: String)
    ensures
        r@.len() == 36,
{
    uuid::Uuid::new_v4().to_string()
}

/// Relies on rusqlite's `execute` of a single `INSERT` into the sessions
/// table: on success exactly this row was added (the temperature column
/// keeps thousandths as a fraction; the SQL divides); a duplicate id breaks
/// the primary key and fails; a failed statement changes nothing.
#[verifier::external_body]
fn insert_session_row(db: &mut Database, s: &ChatSession) -> (r: Result<(), StoreError>)
    requires
        db_schema_ready(&*old(db)),
    ensures
        r is Ok ==> db_schema_ready(&*final(db)),
        db_sessions(&*old(db)).dom().contains(s.id@) ==> r is Err,
        r is Ok ==> db_sessions(&*final(db)) == db_sessions(&*old(db)).insert(s.id@, s@),
        r is Ok ==> db_messages(&*final(db)) == db_messages(&*old(db)),
        r is Err ==> *final(db) == *old(db),
{
    match db.conn.execute(
        "INSERT INTO chat_sessions (id, title, model, system_prompt, temperature, created_at, updated_at) VALUES (?1, ?2, ?3, ?4, ?5 / 1000.0, ?6, ?7)",
        (&s.id, &s.title, &s.model, &s.system_prompt, s.temperature_milli, s.created_at, s.updated_at),
    ) {
        Ok(_) => Ok(()),
        Err(e) => Err(StoreError { message: format!("{}", e) }),
    }
}

/// Relies on rusqlite's `query_row` of a `SELECT ... WHERE id = ?`: the row
/// under this id, or the query-returned-no-rows failure where there is none
/// (the temperature column is read back as thousandths; the SQL multiplies
/// and rounds).
#[verifier::external_body]
fn select_session_row(db: &Database, id: &str) -> (r: Result<Option<ChatSession>, StoreError>)
    requires
        db_schema_ready(db),
    ensures
        r matches Ok(Some(s)) ==> (db_sessions(db).dom().contains(id@) && s.id@ == id@ && s@
            == db_sessions(db)[id@]),
        r matches Ok(None) ==> !db_sessions(db).dom().contains(id@),
{
    let q = db.conn.query_row(
        "SELECT id, title, model, system_prompt, CAST(ROUND(temperature * 1000.0) AS INTEGER), created_at, updated_at FROM chat_sessions WHERE id = ?1",
        (id,),
        |row| Ok(ChatSession { id: row.get(0)?, title: row.get(1)?, model: row.get(2)?, system_prompt: row.get(3)?, temperature_milli: row.get(4)?, created_at: row.get(5)?, updated_at: row.get(6)? }),
    );
    match q {
        Ok(s) => Ok(Some(s)),
        Err(rusqlite::Error::QueryReturnedNoRows) => Ok(None),
        Err(e) => Err(StoreError { message: format!("{}", e) }),
    }
}

/// Relies on rusqlite's `prepare` and `query_map` of a `SELECT ... ORDER BY
/// updated_at DESC`: every session row, each exactly as stored, each id
/// once, most recently updated first.
#[verifier::external_body]
fn select_all_session_rows(db: &Database) -> (r: Result<Vec<ChatSession>, StoreError>)
    requires
        db_schema_ready(db),
    ensures
        r matches Ok(v) ==> (forall|i: int|
            0 <= i < v@.len() ==> db_sessions(db).dom().contains(#[trigger] v@[i].id@) && v@[i]@
                == db_sessions(db)[v@[i].id@]),
        r matches Ok(v) ==> (forall|id: Seq<char>|
            #[trigger] db_sessions(db).dom().contains(id) ==> exists|i: int|
                0 <= i < v@.len() && (#[trigger] v@[i].id@) == id),
        r matches Ok(v) ==> (forall|i: int, j: int|
            0 <= i < j < v@.len() ==> (#[trigger] v@[i].id@) != (#[trigger] v@[j].id@)),
        r matches Ok(v) ==> (forall|i: int, j: int|
            0 <= i < j < v@.len() ==> (#[trigger] v@[i].updated_at) >= (#[trigger] v@[j].updated_at)),
{
    let q = (|| -> rusqlite::Result<Vec<ChatSession>> {
        let mut stmt = db.conn.prepare("SELECT id, title, model, system_prompt, CAST(ROUND(temperature * 1000.0) AS INTEGER), created_at, updated_at FROM chat_sessions ORDER BY updated_at DESC")?;
        let rows = stmt.query_map((), |row| Ok(ChatSession { id: row.get(0)?, title: row.get(1)?, model: row.get(2)?, system_prompt: row.get(3)?, temperature_milli: row.get(4)?, created_at: row.get(5)?, updated_at: row.get(6)? }))?.collect();
        rows
    })();
    q.map_err(|e| StoreError { message: format!("{}", e) })
}

/// Relies on rusqlite's `execute` of a single `UPDATE ... WHERE id = ?`
/// setting the title and the updated timestamp: the row under this id, where
/// there is one, gets them; nothing else changes, and a failed statement
/// changes nothing.
#[verifier::external_body]
fn update_title_row(db: &mut Database, id: &str, title: &str, now: i64) -> (r: Result<
    (),
    StoreError,
>)
    requires
        db_schema_ready(&*old(db)),
    ensures
        r is Ok ==> db_schema_ready(&*final(db)),
        r is Ok && db_sessions(&*old(db)).dom().contains(id@) ==> db_sessions(&*final(db))
            == db_sessions(&*old(db)).insert(
            id@,
            (SessionView {
                title: title@,
                updated_at: now as int,
                ..db_sessions(&*old(db))[id@]
            }),
        ),
        r is Ok && !db_sessions(&*old(db)).dom().contains(id@) ==> db_sessions(&*final(db))
            == db_sessions(&*old(db)),
        r is Ok ==> db_messages(&*final(db)) == db_messages(&*old(db)),
        r is Err ==> *final(db) == *old(db),
{
    match db.conn.execute(
        "UPDATE chat_sessions SET title = ?2, updated_at = ?3 WHERE id = ?1",
        (id, title, now),
    ) {
        Ok(_) => Ok(()),
        Err(e) => Err(StoreError { message: format!("{}", e) }),
    }
}

/// Relies on rusqlite's `execute` of a single `UPDATE ... WHERE id = ?`
/// setting the model and the updated timestamp, as for the title.
#[verifier::external_body]
fn update_model_row(db: &mut Database, id: &str, model: &str, now: i64) -> (r: Result<
    (),
    StoreError,
>)
    requires
        db_schema_ready(&*old(db)),
    ensures
        r is Ok ==> db_schema_ready(&*final(db)),
        r is Ok && db_sessions(&*old(db)).dom().contains(id@) ==> db_sessions(&*final(db))
            == db_sessions(&*old(db)).insert(
            id@,
            (SessionView {
                model: model@,
                updated_at: now as int,
                ..db_sessions(&*old(db))[id@]
            }),
        ),
        r is Ok && !db_sessions(&*old(db)).dom().contains(id@) ==> db_sessions(&*final(db))
            == db_sessions(&*old(db)),
        r is Ok ==> db_messages(&*final(db)) == db_messages(&*old(db)),
        r is Err ==> *final(db) == *old(db),
{
    match db.conn.execute(
        "UPDATE chat_sessions SET model = ?2, updated_at = ?3 WHERE id = ?1",
        (id, model, now),
    ) {
        Ok(_) => Ok(()),
        Err(e) => Err(StoreError { message: format!("{}", e) }),
    }
}

/// Relies on rusqlite's `execute` of a single `UPDATE ... WHERE id = ?`
/// setting the system prompt, the temperature (thousandths in, fraction
/// stored; the SQL divides) and the updated timestamp, as for the title.
#[verifier::external_body]
fn update_params_row(
    db: &mut Database,
    id: &str,
    system_prompt: &str,
    temperature_milli: u32,
    now: i64,
) -> (r: Result<(), StoreError>)
    requires
        db_schema_ready(&*old(db)),
    ensures
        r is Ok ==> db_schema_ready(&*final(db)),
        r is Ok && db_sessions(&*old(db)).dom().contains(id@) ==> db_sessions(&*final(db))
            == db_sessions(&*old(db)).insert(
            id@,
            (SessionView {
                system_prompt: system_prompt@,
                temperature_milli: temperature_milli,
                updated_at: now as int,
                ..db_sessions(&*old(db))[id@]
            }),
        ),
        r is Ok && !db_sessions(&*old(db)).dom().contains(id@) ==> db_sessions(&*final(db))
            == db_sessions(&*old(db)),
        r is Ok ==> db_messages(&*final(db)) == db_messages(&*old(db)),
        r is Err ==> *final(db) == *old(db),
{
    match db.conn.execute(
        "UPDATE chat_sessions SET system_prompt = ?2, temperature = ?3 / 1000.0, updated_at = ?4 WHERE id = ?1",
        (id, system_prompt, temperature_milli, now),
    ) {
        Ok(_) => Ok(()),
        Err(e) => Err(StoreError { message: format!("{}", e) }),
    }
}

/// Relies on rusqlite's `execute` of a single `DELETE FROM chat_sessions
/// WHERE id = ?` with foreign-key enforcement on: the row under this id goes,
/// and the configured cascade removes exactly the messages owned by it, all
/// as one statement; a failed statement changes nothing.  Referential
/// integrity is required so that an absent id (which the statement lets pass,
/// deleting nothing) also matches the contract: no message can then carry it.
#[verifier::external_body]
fn delete_session_row(db: &mut Database, id: &str) -> (r: Result<(), StoreError>)
    requires
        db_schema_ready(&*old(db)),
        db_integrity(&*old(db)),
    ensures
        r is Ok ==> db_schema_ready(&*final(db)),
        r is Ok ==> db_sessions(&*final(db)) == db_sessions(&*old(db)).remove(id@),
        r is Ok ==> db_messages(&*final(db)) == drop_session_messages(
            db_messages(&*old(db)),
            id@,
        ),
        r is Err ==> *final(db) == *old(db),
{
    match db.conn.execute("DELETE FROM chat_sessions WHERE id = ?1", (id,)) {
        Ok(_) => Ok(()),
        Err(e) => Err(StoreError { message: format!("{}", e) }),
    }
}

/// Relies on rusqlite's `transaction` and two `execute`s inside it, an
/// `INSERT` into the messages table and an `UPDATE` of the owning session's
/// updated timestamp, committed together: on success exactly this row was
/// added and the owner's stamp refreshed; a missing owning session breaks
/// the foreign key and fails; a duplicate message id breaks the primary key
/// and fails; a failed or uncommitted transaction rolls back and changes
/// nothing.
#[verifier::external_body]
fn insert_message_and_touch(db: &mut Database, m: &ChatMessage, now: i64) -> (r: Result<
    (),
    StoreError,
>)
    requires
        db_schema_ready(&*old(db)),
    ensures
        r is Ok ==> db_schema_ready(&*final(db)),
        !db_sessions(&*old(db)).dom().contains(m.session_id@) ==> r is Err,
        db_messages(&*old(db)).dom().contains(m.id@) ==> r is Err,
        r is Ok ==> db_messages(&*final(db)) == db_messages(&*old(db)).insert(m.id@, m@),
        r is Ok ==> db_sessions(&*final(db)) == db_sessions(&*old(db)).insert(
            m.session_id@,
            (SessionView { updated_at: now as int, ..db_sessions(&*old(db))[m.session_id@] }),
        ),
        r is Err ==> *final(db) == *old(db),
{
    let r = (|| -> rusqlite::Result<()> {
        let tx = db.conn.transaction()?;
        tx.execute(
            "INSERT INTO chat_messages (id, session_id, role, content, created_at, tokens) VALUES (?1, ?2, ?3, ?4, ?5, ?6)",
            (&m.id, &m.session_id, &m.role, &m.content, m.created_at, m.tokens),
        )?;
        tx.execute("UPDATE chat_sessions SET updated_at = ?2 WHERE id = ?1", (&m.session_id, now))?;
        tx.commit()
    })();
    r.map_err(|e| StoreError { message: format!("{}", e) })
}

/// Relies on rusqlite's `prepare` and `query_map` of a `SELECT ... WHERE
/// session_id = ? ORDER BY created_at ASC`: exactly the message rows owned
/// by this session, each as stored, each id once, oldest first.
#[verifier::external_body]
fn select_message_rows(db: &Database, session_id: &str) -> (r: Result<Vec<ChatMessage>, StoreError>)
    requires
        db_schema_ready(db),
    ensures
        r matches Ok(v) ==> (forall|i: int|
            0 <= i < v@.len() ==> db_messages(db).dom().contains(#[trigger] v@[i].id@) && v@[i]@
                == db_messages(db)[v@[i].id@] && v@[i].session_id@ == session_id@),
        r matches Ok(v) ==> (forall|id: Seq<char>|
            #[trigger] db_messages(db).dom().contains(id) && db_messages(db)[id].session_id
                == session_id@ ==> exists|i: int| 0 <= i < v@.len() && (#[trigger] v@[i].id@)
                == id),
        r matches Ok(v) ==> (forall|i: int, j: int|
            0 <= i < j < v@.len() ==> (#[trigger] v@[i].id@) != (#[trigger] v@[j].id@)),
        r matches Ok(v) ==> (forall|i: int, j: int|
            0 <= i < j < v@.len() ==> (#[trigger] v@[i].created_at) <= (#[trigger] v@[j].created_at)),
{
    let q = (|| -> rusqlite::Result<Vec<ChatMessage>> {
        let mut stmt = db.conn.prepare("SELECT id, session_id, role, content, created_at, tokens FROM chat_messages WHERE session_id = ?1 ORDER BY created_at ASC")?;
        let rows = stmt.query_map((session_id,), |row| Ok(ChatMessage { id: row.get(0)?, session_id: row.get(1)?, role: row.get(2)?, content: row.get(3)?, created_at: row.get(4)?, tokens: row.get(5)? }))?.collect();
        rows
    })();
    q.map_err(|e| StoreError { message: format!("{}", e) })
}

/// Relies on rusqlite's `execute` of a single `DELETE FROM chat_messages
/// WHERE session_id = ?`: exactly the messages owned by this session go, the
/// session itself stays; a failed statement changes nothing.
#[verifier::external_body]
fn delete_message_rows(db: &mut Database, session_id: &str) -> (r: Result<(), StoreError>)
    requires
        db_schema_ready(&*old(db)),
    ensures
        r is Ok ==> db_schema_ready(&*final(db)),
        r is Ok ==> db_messages(&*final(db)) == drop_session_messages(
            db_messages(&*old(db)),
            session_id@,
        ),
        r is Ok ==> db_sessions(&*final(db)) == db_sessions(&*old(db)),
        r is Err ==> *final(db) == *old(db),
{
    match db.conn.execute("DELETE FROM chat_messages WHERE session_id = ?1", (session_id,)) {
        Ok(_) => Ok(()),
        Err(e) => Err(StoreError { message: format!("{}", e) }),
    }
}

impl Database {
    /// Open or create the storage file at this path, enforce referential
    /// integrity, and bring the schema up to date: any column a later
    /// version introduced is added with its documented default, without
    /// touching existing rows.  On success the store is ready and holds
    /// exactly the sessions and messages it held before, the pre-existing
    /// rows with their original data (a row predating a column reads that
    /// column's default).
    pub fn new(path: &str) -> (r: Result<Database, StoreError>)
        ensures
            r matches Ok(db) ==> db_ready(&db),
    {
        let mut db = connect(path)?;
        db.upgrade_schema()?;
        Ok(db)
    }

    /// Bring the schema of an open store up to date and verify it against
    /// the file, touching no row: the base tables are created where missing,
    /// each column a later version introduced is added with its documented
    /// default, and then the actual schema — both tables' columns, the
    /// cascading foreign key — and the data's referential integrity are read
    /// back, with an error on any mismatch.  Idempotent: on a current store
    /// nothing changes.  Succeeding or failing, the stored sessions and
    /// messages are exactly what they were.
    pub fn upgrade_schema(&mut self) -> (r: Result<(), StoreError>)
        ensures
            r is Ok ==> db_ready(&*final(self)),
            db_sessions(&*final(self)) == db_sessions(&*old(self)),
            db_messages(&*final(self)) == db_messages(&*old(self)),
    {
        init_schema(self)?;
        let cols = session_columns(self)?;
        if !has_session_base_columns(&cols) {
            return Err(
                StoreError {
                    message: String::from_str("the sessions table lacks a required column"),
                },
            );
        }
        let plan = plan_migrations(&cols);
        if plan.0 {
            add_prompt_column(self)?;
        }
        if plan.1 {
            add_temperature_column(self)?;
        }
        let mcols = message_columns(self)?;
        if !has_message_base_columns(&mcols) {
            return Err(
                StoreError {
                    message: String::from_str("the messages table lacks a required column"),
                },
            );
        }
        let fks = foreign_key_listing(self)?;
        if !has_cascade_entry(&fks) {
            return Err(
                StoreError {
                    message: String::from_str(
                        "the messages table lacks the cascading foreign key to sessions",
                    ),
                },
            );
        }
        let violations = foreign_key_violations(self)?;
        if violations.len() > 0 {
            return Err(
                StoreError {
                    message: String::from_str("a stored message references a missing session"),
                },
            );
        }
        Ok(())
    }

    /// Create a session under a freshly generated id, both timestamps
    /// stamped with `now`.  On success the returned session is exactly what
    /// the store gained, under an id it did not hold; on failure the store
    /// is unchanged.
    pub fn create_session(
        &mut self,
        title: &str,
        model: &str,
        system_prompt: &str,
        temperature_milli: u32,
        now: i64,
    ) -> (r: Result<ChatSession, StoreError>)
        requires
            db_ready(&*old(self)),
        ensures
            db_ready(&*final(self)),
            r matches Ok(s) ==> (s.title@ == title@ && s.model@ == model@ && s.system_prompt@
                == system_prompt@ && s.temperature_milli == temperature_milli && s.created_at == now
                && s.updated_at == now && s.id@.len() == 36 && !db_sessions(
                &*old(self),
            ).dom().contains(s.id@) && db_sessions(&*final(self)) == db_sessions(
                &*old(self),
            ).insert(s.id@, s@)),
            r matches Ok(s) ==> db_messages(&*final(self)) == db_messages(&*old(self)),
            r is Err ==> db_sessions(&*final(self)) == db_sessions(&*old(self)) && db_messages(
                &*final(self),
            ) == db_messages(&*old(self)),
    {
        let id = fresh_id();
        let session = ChatSession {
            id,
            title: title.to_owned(),
            model: model.to_owned(),
            system_prompt: system_prompt.to_owned(),
            temperature_milli,
            created_at: now,
            updated_at: now,
        };
        let r = insert_session_row(self, &session);
        proof {
            assert forall|k: Seq<char>| #[trigger] db_messages(&*self).dom().contains(k) implies
            db_sessions(&*self).dom().contains(db_messages(&*self)[k].session_id) by {
                assert(db_messages(&*old(self)).dom().contains(k));
            };
        }
        match r {
            Ok(_) => Ok(session),
            Err(e) => Err(e),
        }
    }

    /// The session under this id, or nothing where the store holds none:
    /// an absent session is not a failure.
    pub fn get_session(&self, id: &str) -> (r: Result<Option<ChatSession>, StoreError>)
        requires
            db_ready(self),
        ensures
            r matches Ok(Some(s)) ==> (db_sessions(self).dom().contains(id@) && s@ == db_sessions(
                self,
            )[id@] && s.id@ == id@),
            r matches Ok(None) ==> !db_sessions(self).dom().contains(id@),
    {
        select_session_row(self, id)
    }

    /// Every session the store holds, each exactly as stored, each id once,
    /// ordered by the updated timestamp descending: most recently active
    /// first.
    pub fn get_all_sessions(&self) -> (r: Result<Vec<ChatSession>, StoreError>)
        requires
            db_ready(self),
        ensures
            r matches Ok(v) ==> (forall|i: int|
                0 <= i < v@.len() ==> db_sessions(self).dom().contains(#[trigger] v@[i].id@)
                    && v@[i]@ == db_sessions(self)[v@[i].id@]),
            r matches Ok(v) ==> (forall|id: Seq<char>|
                #[trigger] db_sessions(self).dom().contains(id) ==> exists|i: int|
                    0 <= i < v@.len() && (#[trigger] v@[i].id@) == id),
            r matches Ok(v) ==> (forall|i: int, j: int|
                0 <= i < j < v@.len() ==> (#[trigger] v@[i].id@) != (#[trigger] v@[j].id@)),
            r matches Ok(v) ==> (forall|i: int, j: int|
                0 <= i < j < v@.len() ==> (#[trigger] v@[i].updated_at) >= (#[trigger] v@[j].updated_at)),
    {
        select_all_session_rows(self)
    }

    /// Set the session's title and refresh its updated timestamp to `now`.
    /// An id the store does not hold changes nothing and is not a failure.
    pub fn update_session_title(&mut self, id: &str, title: &str, now: i64) -> (r: Result<
        (),
        StoreError,
    >)
        requires
            db_ready(&*old(self)),
        ensures
            db_ready(&*final(self)),
            r is Ok && db_sessions(&*old(self)).dom().contains(id@) ==> db_sessions(&*final(self))
                == db_sessions(&*old(self)).insert(
                id@,
                (SessionView {
                    title: title@,
                    updated_at: now as int,
                    ..db_sessions(&*old(self))[id@]
                }),
            ),
            r is Ok && !db_sessions(&*old(self)).dom().contains(id@) ==> db_sessions(&*final(self))
                == db_sessions(&*old(self)),
            r is Ok && db_sessions(&*old(self)).dom().contains(id@) && now >= db_sessions(
                &*old(self),
            )[id@].created_at ==> db_sessions(&*final(self))[id@].updated_at >= db_sessions(
                &*final(self),
            )[id@].created_at,
            r is Err ==> db_sessions(&*final(self)) == db_sessions(&*old(self)),
            db_messages(&*final(self)) == db_messages(&*old(self)),
    {
        update_title_row(self, id, title, now)
    }

    /// Set the session's model and refresh its updated timestamp to `now`,
    /// as for the title.
    pub fn update_session_model(&mut self, id: &str, model: &str, now: i64) -> (r: Result<
        (),
        StoreError,
    >)
        requires
            db_ready(&*old(self)),
        ensures
            db_ready(&*final(self)),
            r is Ok && db_sessions(&*old(self)).dom().contains(id@) ==> db_sessions(&*final(self))
                == db_sessions(&*old(self)).insert(
                id@,
                (SessionView {
                    model: model@,
                    updated_at: now as int,
                    ..db_sessions(&*old(self))[id@]
                }),
            ),
            r is Ok && !db_sessions(&*old(self)).dom().contains(id@) ==> db_sessions(&*final(self))
                == db_sessions(&*old(self)),
            r is Ok && db_sessions(&*old(self)).dom().contains(id@) && now >= db_sessions(
                &*old(self),
            )[id@].created_at ==> db_sessions(&*final(self))[id@].updated_at >= db_sessions(
                &*final(self),
            )[id@].created_at,
            r is Err ==> db_sessions(&*final(self)) == db_sessions(&*old(self)),
            db_messages(&*final(self)) == db_messages(&*old(self)),
    {
        update_model_row(self, id, model, now)
    }

    /// Set the session's system prompt and temperature (in thousandths) and
    /// refresh its updated timestamp to `now`, as for the title.
    pub fn update_session_params(
        &mut self,
        id: &str,
        system_prompt: &str,
        temperature_milli: u32,
        now: i64,
    ) -> (r: Result<(), StoreError>)
        requires
            db_ready(&*old(self)),
        ensures
            db_ready(&*final(self)),
            r is Ok && db_sessions(&*old(self)).dom().contains(id@) ==> db_sessions(&*final(self))
                == db_sessions(&*old(self)).insert(
                id@,
                (SessionView {
                    system_prompt: system_prompt@,
                    temperature_milli: temperature_milli,
                    updated_at: now as int,
                    ..db_sessions(&*old(self))[id@]
                }),
            ),
            r is Ok && !db_sessions(&*old(self)).dom().contains(id@) ==> db_sessions(&*final(self))
                == db_sessions(&*old(self)),
            r is Ok && db_sessions(&*old(self)).dom().contains(id@) && now >= db_sessions(
                &*old(self),
            )[id@].created_at ==> db_sessions(&*final(self))[id@].updated_at >= db_sessions(
                &*final(self),
            )[id@].created_at,
            r is Err ==> db_sessions(&*final(self)) == db_sessions(&*old(self)),
            db_messages(&*final(self)) == db_messages(&*old(self)),
    {
        update_params_row(self, id, system_prompt, temperature_milli, now)
    }

    /// Remove the session under this id; the cascade removes every message
    /// it owned, atomically with it.  After success no message of that
    /// session remains.
    pub fn delete_session(&mut self, id: &str) -> (r: Result<(), StoreError>)
        requires
            db_ready(&*old(self)),
        ensures
            db_ready(&*final(self)),
            r is Ok ==> db_sessions(&*final(self)) == db_sessions(&*old(self)).remove(id@),
            r is Ok ==> db_messages(&*final(self)) == drop_session_messages(
                db_messages(&*old(self)),
                id@,
            ),
            r is Ok ==> (forall|k: Seq<char>|
                #[trigger] db_messages(&*final(self)).dom().contains(k) ==> db_messages(
                    &*final(self),
                )[k].session_id != id@),
            r is Ok && !db_sessions(&*old(self)).dom().contains(id@) ==> db_sessions(
                &*final(self),
            ) == db_sessions(&*old(self)) && db_messages(&*final(self)) == db_messages(
                &*old(self),
            ),
            r is Err ==> db_sessions(&*final(self)) == db_sessions(&*old(self)) && db_messages(
                &*final(self),
            ) == db_messages(&*old(self)),
    {
        let r = delete_session_row(self, id);
        proof {
            assert forall|k: Seq<char>| #[trigger] db_messages(&*self).dom().contains(k) implies
            db_sessions(&*self).dom().contains(db_messages(&*self)[k].session_id) by {
                assert(db_messages(&*old(self)).dom().contains(k));
            };
            if r is Ok && !db_sessions(&*old(self)).dom().contains(id@) {
                assert(db_sessions(&*old(self)).remove(id@) =~= db_sessions(&*old(self)));
                assert forall|k: Seq<char>| #[trigger] db_messages(&*old(self)).dom().contains(
                    k,
                ) implies db_messages(&*old(self))[k].session_id != id@ by {};
                assert(drop_session_messages(db_messages(&*old(self)), id@) =~= db_messages(
                    &*old(self),
                ));
            }
        }
        r
    }

    /// Add a message to an existing session under a freshly generated id,
    /// stamped with `now`, and refresh the owning session's updated
    /// timestamp to `now`, both inside one transaction: on failure neither
    /// happened.  A session id the store does not hold breaks referential
    /// integrity and fails.  When the caller's clock does not run backwards
    /// (`now` at least the owner's created stamp and the session's stored
    /// message stamps), the owner's invariant and the per-session ascending
    /// message order are kept.
    pub fn create_message(
        &mut self,
        session_id: &str,
        role: &str,
        content: &str,
        tokens: Option<u32>,
        now: i64,
    ) -> (r: Result<ChatMessage, StoreError>)
        requires
            db_ready(&*old(self)),
        ensures
            db_ready(&*final(self)),
            !db_sessions(&*old(self)).dom().contains(session_id@) ==> r is Err,
            r matches Ok(m) ==> (m.session_id@ == session_id@ && m.role@ == role@ && m.content@
                == content@ && m.created_at == now && m.tokens == tokens && m.id@.len() == 36
                && !db_messages(&*old(self)).dom().contains(m.id@) && db_messages(&*final(self))
                == db_messages(&*old(self)).insert(m.id@, m@) && db_sessions(
                &*old(self),
            ).dom().contains(session_id@) && db_sessions(&*final(self)) == db_sessions(
                &*old(self),
            ).insert(
                session_id@,
                (SessionView { updated_at: now as int, ..db_sessions(&*old(self))[session_id@] }),
            )),
            r is Ok && now >= db_sessions(&*old(self))[session_id@].created_at ==> db_sessions(
                &*final(self),
            )[session_id@].updated_at >= db_sessions(&*final(self))[session_id@].created_at,
            r is Ok && (forall|k: Seq<char>|
                (#[trigger] db_messages(&*old(self)).dom().contains(k)) && db_messages(
                    &*old(self),
                )[k].session_id == session_id@ ==> db_messages(&*old(self))[k].created_at
                    <= now) ==> (forall|k: Seq<char>|
                (#[trigger] db_messages(&*final(self)).dom().contains(k)) && db_messages(
                    &*final(self),
                )[k].session_id == session_id@ ==> db_messages(&*final(self))[k].created_at
                    <= now),
            r is Err ==> db_sessions(&*final(self)) == db_sessions(&*old(self)) && db_messages(
                &*final(self),
            ) == db_messages(&*old(self)),
    {
        let id = fresh_id();
        let message = ChatMessage {
            id,
            session_id: session_id.to_owned(),
            role: role.to_owned(),
            content: content.to_owned(),
            created_at: now,
            tokens,
        };
        let r = insert_message_and_touch(self, &message, now);
        proof {
            assert forall|k: Seq<char>| #[trigger] db_messages(&*self).dom().contains(k) implies
            db_sessions(&*self).dom().contains(db_messages(&*self)[k].session_id) by {
                if k != message.id@ {
                    assert(db_messages(&*old(self)).dom().contains(k));
                }
            };
        }
        match r {
            Ok(_) => Ok(message),
            Err(e) => Err(e),
        }
    }

    /// Every message of this session, each exactly as stored, each id once,
    /// ordered by the created timestamp ascending: oldest first.
    pub fn get_messages(&self, session_id: &str) -> (r: Result<Vec<ChatMessage>, StoreError>)
        requires
            db_ready(self),
        ensures
            r matches Ok(v) ==> (forall|i: int|
                0 <= i < v@.len() ==> db_messages(self).dom().contains(#[trigger] v@[i].id@)
                    && v@[i]@ == db_messages(self)[v@[i].id@] && v@[i].session_id@ == session_id@),
            r matches Ok(v) ==> (forall|id: Seq<char>|
                #[trigger] db_messages(self).dom().contains(id) && db_messages(self)[id].session_id
                    == session_id@ ==> exists|i: int|
                    0 <= i < v@.len() && (#[trigger] v@[i].id@) == id),
            r matches Ok(v) ==> (forall|i: int, j: int|
                0 <= i < j < v@.len() ==> (#[trigger] v@[i].id@) != (#[trigger] v@[j].id@)),
            r matches Ok(v) ==> (forall|i: int, j: int|
                0 <= i < j < v@.len() ==> (#[trigger] v@[i].created_at) <= (#[trigger] v@[j].created_at)),
    {
        select_message_rows(self, session_id)
    }

    /// Remove every message of this session; the session itself stays.
    pub fn delete_messages(&mut self, session_id: &str) -> (r: Result<(), StoreError>)
        requires
            db_ready(&*old(self)),
        ensures
            db_ready(&*final(self)),
            r is Ok ==> db_messages(&*final(self)) == drop_session_messages(
                db_messages(&*old(self)),
                session_id@,
            ),
            db_sessions(&*final(self)) == db_sessions(&*old(self)),
            r is Err ==> db_messages(&*final(self)) == db_messages(&*old(self)),
    {
        delete_message_rows(self, session_id)
    }
}

} // verus!

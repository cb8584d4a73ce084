//! The session store: one row per local user name in an SQLite file, holding
//! the serialized session, the time of the last login and a handoff token.

use vstd::prelude::*;
use crate::bytes::{copy_bytes, texts_equal};
use crate::config::{Config, MappingView, UserMapping};
use crate::hex::{decode_base16, encode_base16, hex_decoded, hex_upper};
use crate::remote::{self, Attribute, AttributeView};
use crate::session;

verus! {

#[verifier::external_type_specification]
#[verifier::external_body]
pub struct ExConnection(sqlite::Connection);

#[verifier::external_type_specification]
#[verifier::external_body]
pub struct ExSqliteError(sqlite::Error);

#[verifier::external_type_specification]
#[verifier::external_body]
pub struct ExCborError(serde_cbor::Error);

/// Why a store operation failed.
#[derive(Debug)]
pub enum StoreError {
    /// No session for that user name, or none with that token.
    UserNotFound,
    /// The file carries a schema version that this code does not use.
    IncompatibleDbVersion,
    /// SQLite could not carry out the operation.
    DatabaseError(sqlite::Error),
    /// A session could not be encoded or decoded.
    CborSerializeError(serde_cbor::Error),
    /// A stored attribute value is not hexadecimal text.
    AttrFormat,
}

/// The schema version this code writes and reads.
pub const SCHEMA_VERSION: i64 = 2;

/// Number of characters in a handoff token.
pub const TOKEN_LEN: usize = 32;

const READ_VERSION: &'static str = "PRAGMA user_version";

pub const WRITE_VERSION: &'static str = "PRAGMA user_version = 2";

pub const CREATE_SCHEMA: &'static str = "
    CREATE TABLE IF NOT EXISTS users (
      id INTEGER PRIMARY KEY AUTOINCREMENT,
      username TEXT,
      last_login INTEGER,
      serialized_user BLOB,
      cookie TEXT
    );
    CREATE UNIQUE INDEX IF NOT EXISTS users_unique
    ON users(username);
    ";

const UPSERT_SESSION: &'static str = "
    INSERT INTO users
    (username, last_login, serialized_user, cookie)
    VALUES (?, ?, ?, ?)
    ON CONFLICT (username)
    DO UPDATE SET
    last_login=excluded.last_login,
    serialized_user=excluded.serialized_user,
    cookie=excluded.cookie
    ";

const SELECT_SESSION: &'static str = "SELECT serialized_user, cookie FROM users WHERE username = ?";

/// One value of a row read back from SQLite.
#[derive(Debug)]
pub enum Cell {
    Integer(i64),
    Text(String),
    Blob(Vec<u8>),
    Null,
    Real,
}

pub enum CellView {
    Integer(i64),
    Text(Seq<char>),
    Blob(Seq<u8>),
    Null,
    Real,
}

impl View for Cell {
    type V = CellView;

    open spec fn view(&self) -> CellView {
        match self {
            Cell::Integer(i) => CellView::Integer(*i),
            Cell::Text(s) => CellView::Text(s@),
            Cell::Blob(b) => CellView::Blob(b@),
            Cell::Null => CellView::Null,
            Cell::Real => CellView::Real,
        }
    }
}

pub open spec fn row_view(row: Option<Vec<Cell>>) -> Option<Seq<CellView>> {
    match row {
        Some(cells) => Some(cells@.map_values(|c: Cell| c@)),
        None => None,
    }
}

pub open spec fn text_view(t: Option<&str>) -> Option<Seq<char>> {
    match t {
        Some(s) => Some(s@),
        None => None,
    }
}

// ---------------------------------------------------------------------------
// Schema version
// ---------------------------------------------------------------------------

/// The version read from the file is 0, for a file never set up, or the
/// current one; no row at all counts as 0.
pub open spec fn version_compatible(row: Option<Seq<CellView>>) -> bool {
    match row {
        None => true,
        Some(cells) => forall|k: int|
            0 <= k < cells.len() ==> #[trigger] cells[k] == CellView::Integer(0) || cells[k]
                == CellView::Integer(SCHEMA_VERSION),
    }
}

/// Decides from the version that the file holds whether it may be used.
pub fn check_schema(row: &Option<Vec<Cell>>) -> (r: Result<(), StoreError>)
    ensures
        r is Ok <==> version_compatible(row_view(*row)),
        r is Err ==> r matches Err(StoreError::IncompatibleDbVersion),
{
    match row {
        None => Ok(()),
        Some(cells) => {
            let ghost v = row_view(*row)->0;
            let mut k: usize = 0;
            while k < cells.len()
                invariant
                    k <= cells@.len(),
                    v == cells@.map_values(|c: Cell| c@),
                    row_view(*row) == Some(v),
                    forall|j: int|
                        0 <= j < k ==> #[trigger] v[j] == CellView::Integer(0) || v[j]
                            == CellView::Integer(SCHEMA_VERSION),
                decreases cells@.len() - k,
            {
                assert(v[k as int] == cells@[k as int]@);
                match &cells[k] {
                    Cell::Integer(n) => {
                        if *n != 0 && *n != SCHEMA_VERSION {
                            assert(!(v[k as int] == CellView::Integer(0) || v[k as int]
                                == CellView::Integer(SCHEMA_VERSION)));
                            return Err(StoreError::IncompatibleDbVersion);
                        }
                    },
                    _ => {
                        assert(!(v[k as int] == CellView::Integer(0) || v[k as int]
                            == CellView::Integer(SCHEMA_VERSION)));
                        return Err(StoreError::IncompatibleDbVersion);
                    },
                }
                k = k + 1;
            }
            Ok(())
        },
    }
}

/// The statements that opening a file runs after reading its version: none
/// for a refused version, else recording the current version and creating
/// the table.
pub open spec fn setup_writes(row: Option<Seq<CellView>>) -> Seq<&'static str> {
    if version_compatible(row) {
        seq![WRITE_VERSION, CREATE_SCHEMA]
    } else {
        Seq::empty()
    }
}

/// The statements to run on a file whose version row is `row`.
pub fn schema_writes(row: &Option<Vec<Cell>>) -> (r: Result<Vec<&'static str>, StoreError>)
    ensures
        r is Err <==> !version_compatible(row_view(*row)),
        r is Err ==> r matches Err(StoreError::IncompatibleDbVersion),
        r matches Ok(w) ==> w@ == setup_writes(row_view(*row)),
{
    match check_schema(row) {
        Ok(()) => {
            let w = vec![WRITE_VERSION, CREATE_SCHEMA];
            assert(w@ =~= setup_writes(row_view(*row)));
            Ok(w)
        },
        Err(e) => Err(e),
    }
}

/// A file whose version is neither 0 nor the current one is refused, and
/// nothing is written to it.
pub proof fn lemma_schema_guard(version: i64)
    requires
        version != 0,
        version != SCHEMA_VERSION,
    ensures
        !version_compatible(Some(seq![CellView::Integer(version)])),
        setup_writes(Some(seq![CellView::Integer(version)])).len() == 0,
{
    let cells = seq![CellView::Integer(version)];
    assert(!(cells[0] == CellView::Integer(0) || cells[0] == CellView::Integer(SCHEMA_VERSION)));
}

// ---------------------------------------------------------------------------
// Rows and tokens
// ---------------------------------------------------------------------------

/// The serialized session that a row read back yields: the row must hold the
/// session and, where a token is given, exactly that token.
pub open spec fn redeemed(row: Option<Seq<CellView>>, token: Option<Seq<char>>) -> Option<Seq<u8>> {
    match row {
        None => None,
        Some(cells) => if cells.len() < 2 {
            None
        } else {
            match cells[0] {
                CellView::Blob(blob) => match token {
                    None => Some(blob),
                    Some(t) => if cells[1] == CellView::Text(t) {
                        Some(blob)
                    } else {
                        None
                    },
                },
                _ => None,
            }
        },
    }
}

/// Takes the serialized session out of a row read back, checking the token
/// where one is given; every mismatch is `UserNotFound`.
pub fn redeem_row(row: Option<Vec<Cell>>, token: Option<&str>) -> (r: Result<Vec<u8>, StoreError>)
    ensures
        match redeemed(row_view(row), text_view(token)) {
            Some(blob) => r matches Ok(b) && b@ == blob,
            None => r matches Err(StoreError::UserNotFound),
        },
{
    match row {
        None => Err(StoreError::UserNotFound),
        Some(cells) => {
            if cells.len() < 2 {
                return Err(StoreError::UserNotFound);
            }
            let ghost v = cells@.map_values(|c: Cell| c@);
            assert(v[0] == cells@[0]@ && v[1] == cells@[1]@);
            let blob = match &cells[0] {
                Cell::Blob(b) => copy_bytes(b),
                _ => {
                    return Err(StoreError::UserNotFound);
                },
            };
            match token {
                None => Ok(blob),
                Some(t) => match &cells[1] {
                    Cell::Text(stored) => {
                        if texts_equal(stored.as_str(), t) {
                            Ok(blob)
                        } else {
                            Err(StoreError::UserNotFound)
                        }
                    },
                    _ => Err(StoreError::UserNotFound),
                },
            }
        },
    }
}

pub open spec fn is_alphanumeric(c: char) -> bool {
    ('0' <= c && c <= '9') || ('a' <= c && c <= 'z') || ('A' <= c && c <= 'Z')
}

/// A handoff token: `TOKEN_LEN` characters, each a letter or a digit.
pub open spec fn is_token(t: Seq<char>) -> bool {
    t.len() == TOKEN_LEN && forall|k: int| 0 <= k < t.len() ==> #[trigger] is_alphanumeric(t[k])
}

/// What the session table holds for one user name.
pub struct StoredSession {
    pub blob: Seq<u8>,
    pub token: Seq<char>,
    /// The time of the login that wrote the row, in seconds since the epoch.
    pub last_login: i64,
}

/// The session table: user names are unique, so a name has at most one row.
pub type SessionTable = Map<Seq<char>, StoredSession>;

/// The table after the upsert statement: the row for `username` is replaced
/// whole, or added.
pub open spec fn table_upsert(
    t: SessionTable,
    username: Seq<char>,
    blob: Seq<u8>,
    token: Seq<char>,
    last_login: i64,
) -> SessionTable {
    t.insert(username, StoredSession { blob, token, last_login })
}

/// The row that the select statement reads back for `username`.
pub open spec fn table_row(t: SessionTable, username: Seq<char>) -> Option<Seq<CellView>> {
    if t.contains_key(username) {
        Some(seq![CellView::Blob(t[username].blob), CellView::Text(t[username].token)])
    } else {
        None
    }
}

// ---------------------------------------------------------------------------
// Serialized form of a session
// ---------------------------------------------------------------------------

/// An attribute as stored: vendor, subtype and the value as hexadecimal text.
pub type AttributeRecord = (u32, u8, String);

/// A mapping rule as stored, field by field.
pub type MappingRecord = (String, u32, String, u32, String, String, (u32, u8), Vec<u8>);

/// A session as stored: the remote user name, its attributes and the rule.
pub type SessionRecord = (String, Vec<AttributeRecord>, MappingRecord);

pub type AttributeRecordView = (u32, u8, Seq<char>);

pub type MappingRecordView = (Seq<char>, u32, Seq<char>, u32, Seq<char>, Seq<char>, (u32, u8), Seq<u8>);

pub type SessionRecordView = (Seq<char>, Seq<AttributeRecordView>, MappingRecordView);

pub open spec fn attribute_record_view(a: AttributeRecord) -> AttributeRecordView {
    (a.0, a.1, a.2@)
}

pub open spec fn record_view(rec: SessionRecord) -> SessionRecordView {
    (
        rec.0@,
        rec.1@.map_values(|a: AttributeRecord| attribute_record_view(a)),
        (rec.2.0@, rec.2.1, rec.2.2@, rec.2.3, rec.2.4@, rec.2.5@, rec.2.6, rec.2.7@),
    )
}

pub open spec fn mapping_of_record(m: MappingRecordView) -> MappingView {
    MappingView {
        username: m.0,
        uid: m.1,
        group: m.2,
        gid: m.3,
        home: m.4,
        shell: m.5,
        attribute: m.6,
        attribute_value: m.7,
    }
}

pub open spec fn attribute_record_matches(a: AttributeRecordView, v: AttributeView) -> bool {
    &&& a.0 == v.vendor
    &&& a.1 == v.subtype
    &&& a.2 == hex_upper(v.data)
}

/// The stored form of the session `s`.
pub open spec fn record_of_session(s: session::SessionView) -> SessionRecordView {
    (
        s.radius.username,
        s.radius.attributes.map_values(|a: AttributeView| (a.vendor, a.subtype, hex_upper(a.data))),
        (
            s.mapping.username,
            s.mapping.uid,
            s.mapping.group,
            s.mapping.gid,
            s.mapping.home,
            s.mapping.shell,
            s.mapping.attribute,
            s.mapping.attribute_value,
        ),
    )
}

/// The stored form of a session.
pub fn record_of(user: &session::User) -> (r: SessionRecord)
    ensures
        record_view(r) == record_of_session(user@),
{
    let mut attrs: Vec<AttributeRecord> = Vec::new();
    let mut i: usize = 0;
    while i < user.radius.attributes.len()
        invariant
            i <= user.radius.attributes@.len(),
            attrs@.len() == i,
            forall|k: int|
                0 <= k < i ==> attribute_record_matches(
                    attribute_record_view(#[trigger] attrs@[k]),
                    user@.radius.attributes[k],
                ),
        decreases user.radius.attributes@.len() - i,
    {
        let a = &user.radius.attributes[i];
        assert(user@.radius.attributes[i as int] == a@);
        attrs.push((a.vendor, a.subtype, encode_base16(&a.data)));
        i = i + 1;
    }
    let m = &user.mapping;
    let mapping: MappingRecord = (
        m.username.clone(),
        m.uid,
        m.group.clone(),
        m.gid,
        m.home.clone(),
        m.shell.clone(),
        m.attribute,
        copy_bytes(&m.attribute_value),
    );
    let r = (user.radius.username.clone(), attrs, mapping);
    let ghost want = record_of_session(user@);
    assert forall|k: int| 0 <= k < r.1@.len() implies #[trigger] record_view(r).1[k] == want.1[k] by {
        assert(record_view(r).1[k] == attribute_record_view(r.1@[k]));
        assert(attribute_record_matches(attribute_record_view(r.1@[k]), user@.radius.attributes[k]));
    }
    assert(record_view(r).1 =~= want.1);
    assert(record_view(r).2 == want.2);
    r
}

/// The attribute that a stored one stands for, its value read from hexadecimal.
pub open spec fn attribute_of_record(a: AttributeRecordView) -> AttributeView {
    AttributeView { vendor: a.0, subtype: a.1, data: hex_decoded(a.2)->0 }
}

/// Every stored attribute value is hexadecimal text.
pub open spec fn record_values_readable(attrs: Seq<AttributeRecordView>) -> bool {
    forall|k: int| 0 <= k < attrs.len() ==> (#[trigger] hex_decoded(attrs[k].2)) is Some
}

/// The session that a stored form stands for.
pub open spec fn session_of_record(rec: SessionRecordView) -> session::SessionView {
    session::SessionView {
        radius: remote::UserView {
            username: rec.0,
            attributes: rec.1.map_values(|a: AttributeRecordView| attribute_of_record(a)),
        },
        mapping: mapping_of_record(rec.2),
    }
}

/// The stored form of a session reads back as that same session.
pub proof fn lemma_record_round_trip(s: session::SessionView)
    ensures
        record_values_readable(record_of_session(s).1),
        session_of_record(record_of_session(s)) == s,
{
    let rec = record_of_session(s);
    assert forall|k: int| 0 <= k < rec.1.len() implies (#[trigger] hex_decoded(rec.1[k].2)) == Some(
        s.radius.attributes[k].data,
    ) by {
        crate::hex::lemma_hex_round_trip(s.radius.attributes[k].data);
    }
    let attrs = rec.1.map_values(|a: AttributeRecordView| attribute_of_record(a));
    assert forall|k: int| 0 <= k < attrs.len() implies #[trigger] attrs[k] == s.radius.attributes[k] by {
        assert(hex_decoded(rec.1[k].2) == Some(s.radius.attributes[k].data));
    }
    assert(attrs =~= s.radius.attributes);
}

/// Rebuilds a session from its stored form.
pub fn user_of_record(rec: SessionRecord) -> (r: Result<session::User, StoreError>)
    ensures
        r is Ok <==> record_values_readable(record_view(rec).1),
        r is Err ==> r matches Err(StoreError::AttrFormat),
        r matches Ok(u) ==> u@ == session_of_record(record_view(rec)),
{
    let ghost rv = record_view(rec);
    let (username, attrs, m) = rec;
    let mut radius = remote::User { username, attributes: Vec::new() };
    let mut i: usize = 0;
    while i < attrs.len()
        invariant
            i <= attrs@.len(),
            rv == record_view(rec),
            attrs@ == rec.1@,
            radius.username@ == rec.0@,
            radius.attributes@.len() == i,
            forall|k: int| 0 <= k < i ==> (#[trigger] hex_decoded(rv.1[k].2)) is Some,
            forall|k: int|
                0 <= k < i ==> #[trigger] radius.attributes@[k]@ == attribute_of_record(rv.1[k]),
        decreases attrs@.len() - i,
    {
        let a = &attrs[i];
        assert(rv.1[i as int] == attribute_record_view(attrs@[i as int]));
        match decode_base16(a.2.as_str()) {
            Ok(data) => {
                radius.attributes.push(Attribute { vendor: a.0, subtype: a.1, data });
            },
            Err(_) => {
                assert(hex_decoded(rv.1[i as int].2) is None);
                return Err(StoreError::AttrFormat);
            },
        }
        i = i + 1;
    }
    let mapping = UserMapping {
        username: m.0,
        uid: m.1,
        group: m.2,
        gid: m.3,
        home: m.4,
        shell: m.5,
        attribute: m.6,
        attribute_value: m.7,
    };
    let r = session::User { radius, mapping };
    assert(r@.radius.attributes =~= rv.1.map_values(|a: AttributeRecordView| attribute_of_record(a)));
    Ok(r)
}

/// What `serde_cbor::from_slice` reads from `bytes` as a stored session, or
/// `None` where it refuses them.
pub uninterp spec fn cbor_session_record(bytes: Seq<u8>) -> Option<(Seq<char>, Seq<(u32, u8, Seq<char>)>, (Seq<char>, u32, Seq<char>, u32, Seq<char>, Seq<char>, (u32, u8), Seq<u8>))>;

/// What `serde_cbor::to_vec` writes for a stored session.
pub uninterp spec fn cbor_of_record(rec: (Seq<char>, Seq<(u32, u8, Seq<char>)>, (Seq<char>, u32, Seq<char>, u32, Seq<char>, Seq<char>, (u32, u8), Seq<u8>))) -> Seq<u8>;

/// The bytes that the store keeps for the session `s`.
pub open spec fn session_blob(s: session::SessionView) -> Seq<u8> {
    cbor_of_record(record_of_session(s))
}

// ---------------------------------------------------------------------------
// Reading a session back
// ---------------------------------------------------------------------------

/// What reading a session can find.
pub enum ReadResult {
    Found(session::SessionView),
    NotFound,
    BadEncoding,
    BadAttribute,
}

/// What the stored bytes `b` decode to.
pub open spec fn blob_result(b: Seq<u8>) -> ReadResult {
    match cbor_session_record(b) {
        None => ReadResult::BadEncoding,
        Some(rec) => if record_values_readable(rec.1) {
            ReadResult::Found(session_of_record(rec))
        } else {
            ReadResult::BadAttribute
        },
    }
}

/// What reading `username` from the table `t` finds, with `token` checked
/// where one is given.
pub open spec fn read_result(t: SessionTable, username: Seq<char>, token: Option<Seq<char>>) -> ReadResult {
    match redeemed(table_row(t, username), token) {
        None => ReadResult::NotFound,
        Some(b) => blob_result(b),
    }
}

/// `r` is the answer that the read result `x` calls for.
pub open spec fn answers(r: Result<session::User, StoreError>, x: ReadResult) -> bool {
    match x {
        ReadResult::Found(s) => (r matches Ok(u) && u@ == s),
        ReadResult::NotFound => r matches Err(StoreError::UserNotFound),
        ReadResult::BadEncoding => r matches Err(StoreError::CborSerializeError(_)),
        ReadResult::BadAttribute => r matches Err(StoreError::AttrFormat),
    }
}

/// After storing a session, reading its name back, without a token or with
/// the token it was stored with, finds the bytes that were stored.
pub proof fn lemma_round_trip(t: SessionTable, s: session::SessionView, token: Seq<char>, at: i64)
    ensures
        ({
            let after = table_upsert(t, s.mapping.username, session_blob(s), token, at);
            &&& redeemed(table_row(after, s.mapping.username), None) == Some(session_blob(s))
            &&& read_result(after, s.mapping.username, None) == blob_result(session_blob(s))
            &&& read_result(after, s.mapping.username, Some(token)) == blob_result(session_blob(s))
        }),
{
}

/// Reading with a token other than the one stored for the name finds
/// nothing: never another row, never part of one.
pub proof fn lemma_token_isolation(t: SessionTable, username: Seq<char>, token: Seq<char>)
    requires
        t.contains_key(username) ==> t[username].token != token,
    ensures
        read_result(t, username, Some(token)) == ReadResult::NotFound,
{
}

/// A second login for the same name replaces the first: the first token no
/// longer finds anything, the second finds the second session.
pub proof fn lemma_overwrite(
    t: SessionTable,
    username: Seq<char>,
    first: session::SessionView,
    first_token: Seq<char>,
    second: session::SessionView,
    second_token: Seq<char>,
    first_at: i64,
    second_at: i64,
)
    requires
        first_token != second_token,
    ensures
        ({
            let after = table_upsert(
                table_upsert(t, username, session_blob(first), first_token, first_at),
                username,
                session_blob(second),
                second_token,
                second_at,
            );
            &&& read_result(after, username, Some(first_token)) == ReadResult::NotFound
            &&& read_result(after, username, Some(second_token)) == blob_result(session_blob(second))
        }),
{
    let after = table_upsert(
        table_upsert(t, username, session_blob(first), first_token, first_at),
        username,
        session_blob(second),
        second_token,
        second_at,
    );
    assert(after[username] == StoredSession {
        blob: session_blob(second),
        token: second_token,
        last_login: second_at,
    });
    assert(CellView::Text(second_token) != CellView::Text(first_token));
}

// ---------------------------------------------------------------------------
// Outside calls
// ---------------------------------------------------------------------------

/// Relies on `sqlite::Connection::open_with_flags`: opens the file, creating
/// it if needed, for reading and writing under SQLite's full mutex.
#[verifier::external_body]
fn open_connection(path: &str) -> (r: Result<sqlite::Connection, sqlite::Error>) {
    let flags = sqlite::OpenFlags::new().set_create().set_full_mutex().set_read_write();
    sqlite::Connection::open_with_flags(path, flags)
}

/// Relies on sqlite's prepared statements (`Connection::prepare`,
/// `Cursor::next`): reads the first row of `PRAGMA user_version`. From here
/// on the handle's rows are whatever the file holds.
#[verifier::external_body]
fn read_version(db: &mut Db) -> (r: Result<Option<Vec<Cell>>, sqlite::Error>)
    ensures
        final(db).executed == old(db).executed,
        final(db).version_read == old(db).version_read,
{
    let mut cursor = db.conn.prepare(READ_VERSION)?.into_cursor();
    Ok(cursor.next()?.map(|row| row.iter().map(|v| match v {
        sqlite::Value::Integer(i) => Cell::Integer(*i),
        sqlite::Value::String(s) => Cell::Text(s.clone()),
        sqlite::Value::Binary(b) => Cell::Blob(b.clone()),
        sqlite::Value::Null => Cell::Null,
        sqlite::Value::Float(_) => Cell::Real,
    }).collect()))
}

/// Relies on `sqlite::Connection::execute`: runs the statements of `sql` in
/// turn. Recording the version and creating the table leave the rows as
/// they are.
#[verifier::external_body]
fn execute_setup(db: &mut Db, sql: &'static str) -> (r: Result<(), sqlite::Error>)
    requires
        sql == WRITE_VERSION || sql == CREATE_SCHEMA,
    ensures
        final(db).rows == old(db).rows,
        final(db).version_read == old(db).version_read,
        r is Ok ==> final(db).executed@ == old(db).executed@.push(sql),
        r is Err ==> final(db).executed == old(db).executed,
{
    db.conn.execute(sql)
}

/// Relies on sqlite's prepared statements (`Connection::prepare`,
/// `Cursor::bind`, `Cursor::next`) running the select statement: the first
/// row holds the serialized session and the token stored for `username`,
/// as the unique index leaves at most one such row.
#[verifier::external_body]
fn select_session_row(db: &Db, username: &str) -> (r: Result<Option<Vec<Cell>>, sqlite::Error>)
    ensures
        r matches Ok(row) ==> row_view(row) == table_row(db.rows@, username@),
{
    let mut cursor = db.conn.prepare(SELECT_SESSION)?.into_cursor();
    cursor.bind(&[sqlite::Value::String(username.to_string())])?;
    Ok(cursor.next()?.map(|row| row.iter().map(|v| match v {
        sqlite::Value::Integer(i) => Cell::Integer(*i),
        sqlite::Value::String(s) => Cell::Text(s.clone()),
        sqlite::Value::Binary(b) => Cell::Blob(b.clone()),
        sqlite::Value::Null => Cell::Null,
        sqlite::Value::Float(_) => Cell::Real,
    }).collect()))
}

/// Relies on sqlite's prepared statements (`Connection::prepare`,
/// `Cursor::bind`, `Cursor::next`) running the upsert statement once: one
/// atomic statement that replaces the row for `username`, or adds it; when
/// it fails the rows are as they were. The token holds letters and digits
/// only, so the text that the select statement reads back is the token.
#[verifier::external_body]
fn upsert_row(db: &mut Db, username: &str, last_login: i64, blob: &Vec<u8>, token: &str) -> (r: Result<
    (),
    sqlite::Error,
>)
    requires
        is_token(token@),
    ensures
        final(db).version_read == old(db).version_read,
        final(db).executed == old(db).executed,
        r is Ok ==> final(db).rows@ == table_upsert(old(db).rows@, username@, blob@, token@, last_login),
        r is Err ==> final(db).rows == old(db).rows,
{
    let mut cursor = db.conn.prepare(UPSERT_SESSION)?.into_cursor();
    cursor.bind(
        &[
            sqlite::Value::String(username.to_string()),
            sqlite::Value::Integer(last_login),
            sqlite::Value::Binary(blob.clone()),
            sqlite::Value::String(token.to_string()),
        ],
    )?;
    cursor.next()?;
    Ok(())
}

/// Relies on rand's `thread_rng` sampled with `Alphanumeric`: `len`
/// characters, each drawn from `A-Z`, `a-z` and `0-9`.
#[verifier::external_body]
fn random_alphanumeric(len: usize) -> (r: String)
    ensures
        r@.len() == len,
        forall|k: int| 0 <= k < len ==> #[trigger] is_alphanumeric(r@[k]),
{
    rand::Rng::sample_iter(rand::thread_rng(), &rand::distributions::Alphanumeric).take(len).collect()
}

/// Relies on `SystemTime::now` measured from `UNIX_EPOCH`: whole seconds,
/// or `None` when the clock reads earlier than the epoch.
#[verifier::external_body]
fn seconds_since_epoch() -> (r: Option<u64>) {
    std::time::SystemTime::now().duration_since(std::time::UNIX_EPOCH).ok().map(|d| d.as_secs())
}

/// Relies on `serde_cbor::to_vec`: the CBOR encoding of a tuple of plain
/// values, which depends on the tuple alone.
#[verifier::external_body]
fn cbor_encode(record: &SessionRecord) -> (r: Result<Vec<u8>, serde_cbor::Error>)
    ensures
        r matches Ok(b) ==> b@ == cbor_of_record(record_view(*record)),
{
    serde_cbor::to_vec(record)
}

/// Relies on `serde_cbor::from_slice`: reads a tuple of plain values back
/// from CBOR; what it reads depends on the bytes alone.
#[verifier::external_body]
fn cbor_decode(bytes: &Vec<u8>) -> (r: Result<SessionRecord, serde_cbor::Error>)
    ensures
        r matches Ok(rec) ==> cbor_session_record(bytes@) == Some(record_view(rec)),
        r is Err <==> cbor_session_record(bytes@) is None,
{
    serde_cbor::from_slice(bytes)
}

/// A fresh handoff token.
pub fn new_token() -> (r: String)
    ensures
        is_token(r@),
{
    random_alphanumeric(TOKEN_LEN)
}

/// The time of a login, in seconds since the epoch; a clock set before the
/// epoch counts as 0 and one past the range of `i64` as its largest value.
pub fn now() -> (r: i64)
    ensures
        r >= 0,
{
    match seconds_since_epoch() {
        Some(secs) => if secs > i64::MAX as u64 {
            i64::MAX
        } else {
            secs as i64
        },
        None => 0,
    }
}

// ---------------------------------------------------------------------------
// The store
// ---------------------------------------------------------------------------

/// A handle on the session store. Its view is the session table as this
/// handle sees it: whatever the file held when the handle read its version,
/// changed since then only by this handle's own writes. The model assumes
/// that no other process rewrites the same rows while the handle is open;
/// each hook opens its own handle for one operation. Nothing in a contract
/// can state this of other processes, so it stays an assumption here.
pub struct Db {
    conn: sqlite::Connection,
    rows: Ghost<SessionTable>,
    version_read: Option<Vec<Cell>>,
    executed: Ghost<Seq<&'static str>>,
}

impl View for Db {
    type V = SessionTable;

    closed spec fn view(&self) -> SessionTable {
        self.rows@
    }
}

impl Db {
    /// The version row read when the handle was opened.
    pub closed spec fn version_row(&self) -> Option<Seq<CellView>> {
        row_view(self.version_read)
    }

    /// The statements this handle has run to change the schema, in order.
    pub closed spec fn executed(&self) -> Seq<&'static str> {
        self.executed@
    }

    /// The version read was accepted and the schema was set up: the handle
    /// may read and write sessions.
    pub open spec fn ready(&self) -> bool {
        version_compatible(self.version_row()) && self.executed() == setup_writes(self.version_row())
    }

    /// Opens the file at `path`, creating it if needed, and reads its schema
    /// version; nothing is written.
    pub fn connect(path: &str) -> (r: Result<Db, StoreError>)
        ensures
            r matches Ok(db) ==> db.executed().len() == 0,
            r is Err ==> r matches Err(StoreError::DatabaseError(_)),
    {
        let conn = match open_connection(path) {
            Ok(c) => c,
            Err(e) => {
                return Err(StoreError::DatabaseError(e));
            },
        };
        // The rows start as a placeholder; reading the version replaces
        // them with whatever the file holds.
        let mut db = Db { conn, rows: Ghost(Map::empty()), version_read: None, executed: Ghost(Seq::empty()) };
        match read_version(&mut db) {
            Ok(row) => {
                db.version_read = row;
                Ok(db)
            },
            Err(e) => Err(StoreError::DatabaseError(e)),
        }
    }

    /// Sets the schema up, provided the version read is 0 or the current
    /// one: the version is recorded and the table created if missing. A
    /// refused version writes nothing. The rows are left as they are.
    pub fn prepare_schema(&mut self) -> (r: Result<(), StoreError>)
        ensures
            final(self)@ == old(self)@,
            final(self).version_row() == old(self).version_row(),
            r matches Err(StoreError::IncompatibleDbVersion) <==> !version_compatible(old(self).version_row()),
            !version_compatible(old(self).version_row()) ==> final(self).executed() == old(self).executed(),
            r is Ok ==> final(self).executed() == old(self).executed() + setup_writes(old(self).version_row()),
            r is Ok && old(self).executed().len() == 0 ==> final(self).ready(),
            r is Err ==> r matches Err(StoreError::IncompatibleDbVersion) || r matches Err(
                StoreError::DatabaseError(_),
            ),
    {
        let writes = match schema_writes(&self.version_read) {
            Ok(w) => w,
            Err(e) => {
                return Err(e);
            },
        };
        let ghost start = self.executed@;
        let mut i: usize = 0;
        while i < writes.len()
            invariant
                i <= writes@.len(),
                writes@ == setup_writes(old(self).version_row()),
                version_compatible(old(self).version_row()),
                self.rows == old(self).rows,
                self.version_read == old(self).version_read,
                start == old(self).executed(),
                self.executed@ == start + writes@.subrange(0, i as int),
            decreases writes@.len() - i,
        {
            let sql = writes[i];
            assert(sql == WRITE_VERSION || sql == CREATE_SCHEMA);
            if let Err(e) = execute_setup(self, sql) {
                return Err(StoreError::DatabaseError(e));
            }
            assert(writes@.subrange(0, i + 1) =~= writes@.subrange(0, i as int).push(sql));
            assert(start + writes@.subrange(0, i + 1) =~= (start + writes@.subrange(0, i as int)).push(sql));
            i = i + 1;
        }
        assert(writes@.subrange(0, i as int) =~= writes@);
        Ok(())
    }

    /// Opens the store at the path that the configuration names. A file it
    /// creates gets the process's default mode: the caller restricts it to
    /// the owner (0600), as the file holds credentials.
    pub fn with_config(config: &Config) -> (r: Result<Db, StoreError>)
        ensures
            r matches Ok(db) ==> db.ready(),
            r is Err ==> r matches Err(StoreError::IncompatibleDbVersion) || r matches Err(
                StoreError::DatabaseError(_),
            ),
    {
        Db::open(config.db.path.as_str())
    }

    /// Opens the store at `path`: connects, then sets the schema up. A file it
    /// creates gets the process's default mode: the caller restricts it to
    /// the owner (0600), ideally between `connect` and `prepare_schema`.
    pub fn open(path: &str) -> (r: Result<Db, StoreError>)
        ensures
            r matches Ok(db) ==> db.ready(),
            r is Err ==> r matches Err(StoreError::IncompatibleDbVersion) || r matches Err(
                StoreError::DatabaseError(_),
            ),
    {
        let mut db = match Db::connect(path) {
            Ok(db) => db,
            Err(e) => {
                return Err(e);
            },
        };
        match db.prepare_schema() {
            Ok(()) => {
                assert(db.executed() =~= setup_writes(db.version_row()));
                Ok(db)
            },
            Err(e) => Err(e),
        }
    }

    /// Stores the session under its local user name, replacing any earlier
    /// one, and returns the fresh token that redeems it. On failure the
    /// rows, and so the earlier token, are as they were.
    pub fn store_user(&mut self, user: &session::User) -> (r: Result<String, StoreError>)
        requires
            old(self).ready(),
        ensures
            final(self).version_row() == old(self).version_row(),
            final(self).executed() == old(self).executed(),
            r matches Ok(token) ==> is_token(token@) && final(self)@ == table_upsert(
                old(self)@,
                user@.mapping.username,
                session_blob(user@),
                token@,
                final(self)@[user@.mapping.username].last_login,
            ) && final(self)@[user@.mapping.username].last_login >= 0,
            r is Err ==> final(self)@ == old(self)@,
            r is Err ==> r matches Err(StoreError::DatabaseError(_)) || r matches Err(
                StoreError::CborSerializeError(_),
            ),
    {
        let token = new_token();
        let record = record_of(user);
        let blob = match cbor_encode(&record) {
            Ok(b) => b,
            Err(e) => {
                return Err(StoreError::CborSerializeError(e));
            },
        };
        match upsert_row(self, user.mapping.username.as_str(), now(), &blob, token.as_str()) {
            Ok(()) => Ok(token),
            Err(e) => Err(StoreError::DatabaseError(e)),
        }
    }

    /// The session stored for `username`; no token is asked for, and the
    /// stored one does not matter.
    pub fn get_user(&self, username: &str) -> (r: Result<session::User, StoreError>)
        requires
            self.ready(),
        ensures
            r matches Err(StoreError::DatabaseError(_)) || answers(r, read_result(self@, username@, None)),
    {
        self.run_user_query(username, None)
    }

    /// The session stored for `username`, provided it was stored with
    /// `cookie`. An unknown name and a wrong token both give `UserNotFound`.
    /// The token is not used up.
    pub fn get_user_with_cookie(&self, username: &str, cookie: &str) -> (r: Result<
        session::User,
        StoreError,
    >)
        requires
            self.ready(),
        ensures
            r matches Err(StoreError::DatabaseError(_)) || answers(
                r,
                read_result(self@, username@, Some(cookie@)),
            ),
    {
        self.run_user_query(username, Some(cookie))
    }

    fn run_user_query(&self, username: &str, token: Option<&str>) -> (r: Result<
        session::User,
        StoreError,
    >)
        requires
            self.ready(),
        ensures
            r matches Err(StoreError::DatabaseError(_)) || answers(
                r,
                read_result(self@, username@, text_view(token)),
            ),
    {
        let row = match select_session_row(self, username) {
            Ok(row) => row,
            Err(e) => {
                return Err(StoreError::DatabaseError(e));
            },
        };
        let blob = match redeem_row(row, token) {
            Ok(b) => b,
            Err(e) => {
                return Err(e);
            },
        };
        decode_session(&blob)
    }
}

/// Reads a session back from its serialized form.
pub fn decode_session(blob: &Vec<u8>) -> (r: Result<session::User, StoreError>)
    ensures
        answers(r, blob_result(blob@)),
{
    match cbor_decode(blob) {
        Ok(rec) => user_of_record(rec),
        Err(e) => Err(StoreError::CborSerializeError(e)),
    }
}

} // verus!

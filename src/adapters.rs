use vstd::prelude::*;

use crate::store::statement_effect;

verus! {

/// The Unix time, in seconds, of a date-time text with a UTC offset
/// (`2021-01-01T00:00:00+01:00`), when chrono reads it as one.
pub uninterp spec fn offset_datetime_seconds(s: Seq<char>) -> Option<i64>;

/// Relies on chrono's `FromStr for DateTime<Local>` and `DateTime::timestamp`:
/// whether the text parses, and the instant it names, depend on the text alone
/// (the local zone only changes how the instant is displayed).
#[verifier::external_body]
pub(crate) fn parse_timestamp(s: &Vec<char>) -> (r: Option<i64>)
    ensures
        r == offset_datetime_seconds(s@),
{
    let text: String = s.iter().collect();
    match text.parse::<chrono::DateTime<chrono::Local>>() {
        Ok(dt) => Some(dt.timestamp()),
        Err(_) => None,
    }
}

/// A JSON value as far as the record parsers look into it.
pub enum JsonScalar {
    /// Null, or a member that is missing.
    Null,
    /// A number, in the text it was written with.
    Number(String),
    Text(String),
    Other,
}

/// Whether the bytes are one JSON document, as serde_json reads them.
pub uninterp spec fn json_parses(payload: Seq<u8>) -> bool;

/// The member `key` of the JSON object in `payload`, as serde_json reads it;
/// `Null` where the member is missing or the document is no object.
pub uninterp spec fn json_member_of(payload: Seq<u8>, key: Seq<char>) -> JsonScalar;

/// Relies on `serde_json::from_slice`: whether the bytes parse as a JSON
/// value depends on the bytes alone.
#[verifier::external_body]
pub(crate) fn is_json(payload: &[u8]) -> (r: bool)
    ensures
        r == json_parses(payload@),
{
    serde_json::from_slice::<serde_json::Value>(payload).is_ok()
}

/// Relies on `serde_json::from_slice`, `Value::get` and `Number`'s `Display`
/// (under `arbitrary_precision`, the number as written): the member depends on
/// the bytes and the key alone.
#[verifier::external_body]
pub(crate) fn json_member(payload: &[u8], key: &str) -> (r: JsonScalar)
    ensures
        r == json_member_of(payload@, key@),
{
    let doc: serde_json::Value = match serde_json::from_slice(payload) {
        Ok(d) => d,
        Err(_) => return JsonScalar::Null,
    };
    match doc.get(key) {
        None | Some(serde_json::Value::Null) => JsonScalar::Null,
        Some(serde_json::Value::Number(n)) => JsonScalar::Number(n.to_string()),
        Some(serde_json::Value::String(t)) => JsonScalar::Text(t.clone()),
        Some(_) => JsonScalar::Other,
    }
}

#[verifier::external_type_specification]
#[verifier::external_body]
pub struct ExConnection(rusqlite::Connection);

#[verifier::external_type_specification]
#[verifier::external_body]
pub struct ExSqlError(rusqlite::Error);

/// Relies on `rusqlite::Connection::open`: opens or creates the database file.
#[verifier::external_body]
pub(crate) fn open_database(path: &str) -> (r: Result<rusqlite::Connection, rusqlite::Error>) {
    rusqlite::Connection::open(path)
}

/// The tables of the database behind a connection: each table's rows by
/// timestamp, a row being the values that were inserted into its columns.
pub uninterp spec fn store_tables(c: rusqlite::Connection) -> Map<Seq<char>, Map<i64, Seq<i64>>>;

/// Relies on `rusqlite::Connection::execute`: runs one statement with `values`
/// bound to its parameters in order. For the library's own statements, what a
/// statement that succeeded did to the tables is SQLite's documented meaning
/// of `CREATE TABLE IF NOT EXISTS` and `INSERT ... ON CONFLICT DO NOTHING`,
/// the database being written through this connection alone.
#[verifier::external_body]
pub(crate) fn execute_sql(conn: &mut rusqlite::Connection, sql: &str, values: &Vec<i64>) -> (r: Result<
    usize,
    rusqlite::Error,
>)
    ensures
        r is Ok ==> statement_effect(
            sql@,
            values@,
            store_tables(*old(conn)),
            store_tables(*final(conn)),
        ),
{
    conn.execute(sql, rusqlite::params_from_iter(values.iter()))
}

} // verus!

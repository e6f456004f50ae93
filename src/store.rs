use vstd::prelude::*;

use crate::adapters::{execute_sql, open_database, store_tables};
use crate::records::{ElectricityReading, HeatReading, IngestError, Reading};

verus! {

/// The database file of the store.
pub const DATABASE_PATH: &'static str = "energy.sqlite3";

pub const CREATE_ELECTRICITY: &'static str = "CREATE TABLE IF NOT EXISTS electricity (timestamp INTEGER PRIMARY KEY, used_t1 INTEGER NOT NULL, used_t2 INTEGER NOT NULL, active_tariff INTEGER NOT NULL, current_usage INTEGER) STRICT";

pub const CREATE_HEAT: &'static str = "CREATE TABLE IF NOT EXISTS heat (timestamp INTEGER PRIMARY KEY, energy INTEGER NOT NULL, volume INTEGER NOT NULL, hourcounter INTEGER NOT NULL) STRICT";

pub const INSERT_ELECTRICITY_BATCH: &'static str = "INSERT INTO electricity (timestamp, used_t1, used_t2, active_tariff) VALUES (?, ?, ?, ?) ON CONFLICT DO NOTHING";

pub const INSERT_ELECTRICITY_LIVE: &'static str = "INSERT INTO electricity (timestamp, used_t1, used_t2, active_tariff, current_usage) VALUES (?, ?, ?, ?, ?) ON CONFLICT DO NOTHING";

pub const INSERT_HEAT: &'static str = "INSERT INTO heat (timestamp, energy, volume, hourcounter) VALUES (?, ?, ?, ?) ON CONFLICT DO NOTHING";

/// The column values of a reading's row, timestamp first.
pub open spec fn row_of(r: Reading) -> Seq<i64> {
    match r {
        Reading::Electricity(e) => match e.current_usage {
            None => seq![e.timestamp, e.used_t1 as i64, e.used_t2 as i64, e.active_tariff as i64],
            Some(u) => seq![
                e.timestamp,
                e.used_t1 as i64,
                e.used_t2 as i64,
                e.active_tariff as i64,
                u as i64,
            ],
        },
        Reading::Heat(h) => seq![h.timestamp, h.energy as i64, h.volume as i64, h.hourcounter as i64],
    }
}

/// The insert-if-absent statement for a reading's table and columns.
pub open spec fn insert_statement_of(r: Reading) -> Seq<char> {
    match r {
        Reading::Electricity(e) => if e.current_usage is None {
            INSERT_ELECTRICITY_BATCH@
        } else {
            INSERT_ELECTRICITY_LIVE@
        },
        Reading::Heat(_) => INSERT_HEAT@,
    }
}

/// A table as a map from timestamp to row.
pub open spec fn insert_if_absent(table: Map<i64, Seq<i64>>, row: Seq<i64>) -> Map<i64, Seq<i64>> {
    if table.contains_key(row[0]) {
        table
    } else {
        table.insert(row[0], row)
    }
}

/// Storing a reading a second time changes nothing: its timestamp holds one
/// row, the one stored first, and a row already there is never overwritten.
pub proof fn law_insert_idempotent(table: Map<i64, Seq<i64>>, r: Reading)
    ensures
        insert_if_absent(insert_if_absent(table, row_of(r)), row_of(r)) == insert_if_absent(
            table,
            row_of(r),
        ),
        insert_if_absent(table, row_of(r)).contains_key(row_of(r)[0]),
        table.contains_key(row_of(r)[0]) ==> insert_if_absent(table, row_of(r)) == table,
        !table.contains_key(row_of(r)[0]) ==> insert_if_absent(table, row_of(r))[row_of(r)[0]]
            == row_of(r),
        forall|k: i64|
            k != row_of(r)[0] ==> (#[trigger] insert_if_absent(table, row_of(r)).contains_key(k)
                == table.contains_key(k)),
{
}

pub type Tables = Map<Seq<char>, Map<i64, Seq<i64>>>;

/// The table a reading is stored in.
pub open spec fn table_of(r: Reading) -> Seq<char> {
    match r {
        Reading::Electricity(_) => "electricity"@,
        Reading::Heat(_) => "heat"@,
    }
}

/// The tables after creating `table` where it is missing: a table already
/// there keeps its rows.
pub open spec fn with_table(tables: Tables, table: Seq<char>) -> Tables {
    if tables.contains_key(table) {
        tables
    } else {
        tables.insert(table, Map::empty())
    }
}

/// The tables after an insert-if-absent of `row` into `table`.
pub open spec fn with_row(tables: Tables, table: Seq<char>, row: Seq<i64>) -> Tables {
    tables.insert(table, insert_if_absent(tables[table], row))
}

/// Both tables, created where missing.
pub open spec fn with_schema(tables: Tables) -> Tables {
    with_table(with_table(tables, "electricity"@), "heat"@)
}

/// What a statement of the library that succeeded did to the tables; other
/// statements are left open.
pub open spec fn statement_effect(sql: Seq<char>, values: Seq<i64>, before: Tables, after: Tables) -> bool {
    &&& sql == CREATE_ELECTRICITY@ ==> after == with_table(before, "electricity"@)
    &&& sql == CREATE_HEAT@ ==> after == with_table(before, "heat"@)
    &&& (sql == INSERT_ELECTRICITY_BATCH@ && values.len() == 4) || (sql == INSERT_ELECTRICITY_LIVE@
        && values.len() == 5) ==> (before.contains_key("electricity"@) ==> after == with_row(
        before,
        "electricity"@,
        values,
    ))
    &&& sql == INSERT_HEAT@ && values.len() == 4 ==> (before.contains_key("heat"@) ==> after
        == with_row(before, "heat"@, values))
}

/// Writing the same reading twice leaves the tables as writing it once.
pub proof fn law_write_idempotent(tables: Tables, r: Reading)
    requires
        tables.contains_key(table_of(r)),
    ensures
        with_row(with_row(tables, table_of(r), row_of(r)), table_of(r), row_of(r)) == with_row(
            tables,
            table_of(r),
            row_of(r),
        ),
{
    law_insert_idempotent(tables[table_of(r)], r);
    assert(with_row(tables, table_of(r), row_of(r))[table_of(r)] == insert_if_absent(
        tables[table_of(r)],
        row_of(r),
    ));
}

/// The statement and parameter values that store a reading.
pub fn insert_row(r: &Reading) -> (res: (&'static str, Vec<i64>))
    requires
        r.wf(),
    ensures
        res.0@ == insert_statement_of(*r),
        res.1@ == row_of(*r),
{
    match r {
        Reading::Electricity(e) => {
            let mut v: Vec<i64> = Vec::new();
            v.push(e.timestamp);
            v.push(e.used_t1 as i64);
            v.push(e.used_t2 as i64);
            v.push(e.active_tariff as i64);
            match e.current_usage {
                None => {
                    assert(v@ =~= row_of(*r));
                    (INSERT_ELECTRICITY_BATCH, v)
                },
                Some(u) => {
                    v.push(u as i64);
                    assert(v@ =~= row_of(*r));
                    (INSERT_ELECTRICITY_LIVE, v)
                },
            }
        },
        Reading::Heat(h) => {
            let mut v: Vec<i64> = Vec::new();
            v.push(h.timestamp);
            v.push(h.energy as i64);
            v.push(h.volume as i64);
            v.push(h.hourcounter as i64);
            assert(v@ =~= row_of(*r));
            (INSERT_HEAT, v)
        },
    }
}

/// Stores a reading unless its timestamp is already present; a refusal by the
/// store is reported as a storage error.
pub fn write_reading(conn: &mut rusqlite::Connection, r: &Reading) -> (res: Result<(), IngestError>)
    requires
        r.wf(),
    ensures
        res is Ok || res == Err::<(), IngestError>(IngestError::Storage),
        res is Ok && store_tables(*old(conn)).contains_key(table_of(*r)) ==> store_tables(*final(conn))
            == with_row(store_tables(*old(conn)), table_of(*r), row_of(*r)),
{
    let (sql, values) = insert_row(r);
    match execute_sql(conn, sql, &values) {
        Ok(_) => Ok(()),
        Err(_) => Err(IngestError::Storage),
    }
}

/// Runs a statement that takes no parameters.
pub fn execute_plain(conn: &mut rusqlite::Connection, sql: &str) -> (res: Result<(), rusqlite::Error>)
    ensures
        res is Ok ==> statement_effect(
            sql@,
            Seq::empty(),
            store_tables(*old(conn)),
            store_tables(*final(conn)),
        ),
{
    let none: Vec<i64> = Vec::new();
    assert(none@ =~= Seq::<i64>::empty());
    match execute_sql(conn, sql, &none) {
        Ok(_) => Ok(()),
        Err(e) => Err(e),
    }
}

/// Creates the two tables where they are missing.
pub fn create_schema(conn: &mut rusqlite::Connection) -> (res: Result<(), rusqlite::Error>)
    ensures
        res is Ok ==> store_tables(*final(conn)) == with_schema(store_tables(*old(conn))),
{
    match execute_plain(conn, CREATE_ELECTRICITY) {
        Ok(()) => {},
        Err(e) => {
            return Err(e);
        },
    }
    execute_plain(conn, CREATE_HEAT)
}

/// Opens the store's database file and makes sure both tables exist.
pub fn connect_sqlite() -> (res: Result<rusqlite::Connection, rusqlite::Error>)
    ensures
        res matches Ok(c) ==> store_tables(c).contains_key("electricity"@) && store_tables(
            c,
        ).contains_key("heat"@),
{
    let mut conn = match open_database(DATABASE_PATH) {
        Ok(c) => c,
        Err(e) => {
            return Err(e);
        },
    };
    match create_schema(&mut conn) {
        Ok(()) => Ok(conn),
        Err(e) => Err(e),
    }
}

} // verus!

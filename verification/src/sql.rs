use vstd::prelude::*;

use crate::errors::TolstoyError;
use crate::types::Entid;
use crate::types::strictly_ascending;

verus! {

/// Makes `rusqlite::Transaction` usable in signatures. A transaction is
/// opaque here; every call on one goes through one of the wrappers below.
#[verifier::external_type_specification]
#[verifier::external_body]
pub struct ExTransaction<'conn>(rusqlite::Transaction<'conn>);

/// Relies on `rusqlite::Connection::query_row` (reached through the
/// transaction's deref) over `SELECT value FROM tolstoy_metadata WHERE
/// key = ?`: it hands the first resulting row to the closure, which reads
/// the blob column, and it returns `Err(QueryReturnedNoRows)` when no row
/// matches the key. Which bytes come back depends on the stored table, so
/// nothing is said of them.
#[verifier::external_body]
pub(crate) fn query_metadata_value(tx: &rusqlite::Transaction, key: &str) -> (r: Result<
    Vec<u8>,
    TolstoyError,
>)
    ensures
        r matches Err(e) ==> e is NotFound || e is StorageFault,
{
    let sql = "SELECT value FROM tolstoy_metadata WHERE key = ?";
    match tx.query_row(sql, [key], |row| row.get::<_, Vec<u8>>(0)) {
        Ok(v) => Ok(v),
        Err(rusqlite::Error::QueryReturnedNoRows) => Err(TolstoyError::NotFound),
        Err(e) => Err(TolstoyError::StorageFault(e.to_string())),
    }
}

/// Relies on `rusqlite::Connection::execute` over `UPDATE tolstoy_metadata
/// SET value = ? WHERE key = ?`: it runs the statement and returns how many
/// rows were changed. An UPDATE only changes rows that already match its
/// WHERE clause; it never inserts one. How many rows match depends on the
/// stored table, so nothing is said of the count.
#[verifier::external_body]
pub(crate) fn update_metadata_value(tx: &rusqlite::Transaction, key: &str, value: &Vec<u8>) -> (r:
    Result<usize, TolstoyError>)
    ensures
        r matches Err(e) ==> e is StorageFault,
{
    let sql = "UPDATE tolstoy_metadata SET value = ? WHERE key = ?";
    match tx.execute(sql, (value, key)) {
        Ok(n) => Ok(n),
        Err(e) => Err(TolstoyError::StorageFault(e.to_string())),
    }
}

/// Relies on `rusqlite::Connection::prepare` and
/// `rusqlite::Statement::query_map` over `SELECT part, start, end, idx FROM
/// <table>`: each resulting row is handed to the closure, which reads the
/// four columns. Which rows come back depends on the stored table, so
/// nothing is said of them.
#[verifier::external_body]
pub(crate) fn query_partition_rows(tx: &rusqlite::Transaction, table: &str) -> (r: Result<
    Vec<(String, Entid, Entid, Entid)>,
    TolstoyError,
>)
    ensures
        r matches Err(e) ==> e is StorageFault,
{
    let rows: rusqlite::Result<Vec<(String, i64, i64, i64)>> = (|| {
        let mut stmt = tx.prepare(&format!("SELECT part, start, end, idx FROM {}", table))?;
        let mapped = stmt.query_map([], |row| {
            Ok((row.get(0)?, row.get(1)?, row.get(2)?, row.get(3)?))
        })?;
        mapped.collect()
    })();
    match rows {
        Ok(v) => Ok(v),
        Err(e) => Err(TolstoyError::StorageFault(e.to_string())),
    }
}

/// Relies on `rusqlite::Connection::prepare` and
/// `rusqlite::Statement::query_map` over `SELECT tx FROM transactions GROUP
/// BY tx ORDER BY tx`: SQLite's GROUP BY yields one row per distinct tx
/// value and its ORDER BY returns them in ascending order, so the ids come
/// back strictly increasing. How many there are depends on the stored log,
/// so nothing more is said.
#[verifier::external_body]
pub(crate) fn query_tx_ids(tx: &rusqlite::Transaction) -> (r: Result<Vec<Entid>, TolstoyError>)
    ensures
        r matches Ok(ids) ==> strictly_ascending(ids@),
        r matches Err(e) ==> e is StorageFault,
{
    let ids: rusqlite::Result<Vec<i64>> = (|| {
        let mut stmt = tx.prepare("SELECT tx FROM transactions GROUP BY tx ORDER BY tx")?;
        let mapped = stmt.query_map([], |row| row.get(0))?;
        mapped.collect()
    })();
    match ids {
        Ok(v) => Ok(v),
        Err(e) => Err(TolstoyError::StorageFault(e.to_string())),
    }
}

} // verus!

use tolstoy::errors::TolstoyError;
use tolstoy::metadata::PartitionsTable;
use tolstoy::metadata::SyncMetadataClient;
use tolstoy::types::Uuid;

fn setup_conn_bare() -> rusqlite::Connection {
    let conn = rusqlite::Connection::open_in_memory().expect("open in-memory db");
    conn.execute(
        "CREATE TABLE tolstoy_metadata (key TEXT NOT NULL UNIQUE, value BLOB NOT NULL)",
        [],
    )
    .expect("create metadata table");
    conn
}

fn seed_remote_head(conn: &rusqlite::Connection) {
    conn.execute(
        "INSERT INTO tolstoy_metadata (key, value) VALUES (?, zeroblob(16))",
        ["remote_head"],
    )
    .expect("seed remote head");
}

fn setup_tx(conn: &mut rusqlite::Connection) -> rusqlite::Transaction {
    conn.transaction().expect("transaction")
}

fn setup_parts_tables(conn: &rusqlite::Connection) {
    conn.execute(
        "CREATE TABLE parts (part TEXT NOT NULL PRIMARY KEY, start INTEGER NOT NULL, end INTEGER NOT NULL, idx INTEGER NOT NULL)",
        [],
    )
    .expect("create parts table");
    conn.execute(
        "CREATE TABLE tolstoy_parts (part TEXT NOT NULL PRIMARY KEY, start INTEGER NOT NULL, end INTEGER NOT NULL, idx INTEGER NOT NULL)",
        [],
    )
    .expect("create tolstoy_parts table");
}

fn setup_transactions_table(conn: &rusqlite::Connection) {
    conn.execute(
        "CREATE TABLE transactions (e INTEGER NOT NULL, a SMALLINT NOT NULL, v BLOB NOT NULL, tx INTEGER NOT NULL, added TINYINT NOT NULL DEFAULT 1, value_type_tag SMALLINT NOT NULL)",
        [],
    )
    .expect("create transactions table");
}

fn bootstrap_transactions(conn: &rusqlite::Connection) {
    // The store's own initialization commits a first (bootstrap) transaction
    // whose rows all carry the same transaction id.
    conn.execute(
        "INSERT INTO transactions VALUES (?, ?, ?, ?, ?, ?)",
        (268435456i64, 1i64, ":db/ident", 268435456i64, 1i64, 13i64),
    )
    .expect("bootstrap row");
    conn.execute(
        "INSERT INTO transactions VALUES (?, ?, ?, ?, ?, ?)",
        (268435456i64, 3i64, 1529971773701733i64, 268435456i64, 1i64, 4i64),
    )
    .expect("bootstrap row");
}

#[test]
fn test_get_remote_head_default() {
    let mut conn = setup_conn_bare();
    seed_remote_head(&conn);
    let tx = setup_tx(&mut conn);
    assert_eq!(
        Uuid::nil(),
        SyncMetadataClient::remote_head(&tx).expect("fetch succeeded")
    );
}

#[test]
fn test_set_and_get_remote_head() {
    let mut conn = setup_conn_bare();
    seed_remote_head(&conn);
    let tx = setup_tx(&mut conn);
    let fresh = uuid::Uuid::new_v4();
    let uuid = Uuid::from_bytes(&fresh.as_bytes()[..]).expect("valid bytes");
    SyncMetadataClient::set_remote_head(&tx, &uuid).expect("update succeeded");
    assert_eq!(
        uuid,
        SyncMetadataClient::remote_head(&tx).expect("fetch succeeded")
    );
}

#[test]
fn test_root_and_head_tx() {
    let mut conn = setup_conn_bare();
    setup_transactions_table(&conn);
    bootstrap_transactions(&conn);
    let db_tx = conn.transaction().expect("transaction");

    let (root_tx, last_tx) = SyncMetadataClient::root_and_head_tx(&db_tx).expect("last tx");
    assert_eq!(268435456, root_tx);
    assert_eq!(268435456, last_tx);

    db_tx
        .execute(
            "INSERT INTO transactions VALUES (?, ?, ?, ?, ?, ?)",
            (268435457i64, 3i64, 1529971773701734i64, 268435457i64, 1i64, 4i64),
        )
        .expect("inserted");
    db_tx
        .execute(
            "INSERT INTO transactions VALUES (?, ?, ?, ?, ?, ?)",
            (65536i64, 1i64, ":person/name", 268435457i64, 1i64, 13i64),
        )
        .expect("inserted");
    db_tx
        .execute(
            "INSERT INTO transactions VALUES (?, ?, ?, ?, ?, ?)",
            (65536i64, 7i64, 27i64, 268435457i64, 1i64, 0i64),
        )
        .expect("inserted");
    db_tx
        .execute(
            "INSERT INTO transactions VALUES (?, ?, ?, ?, ?, ?)",
            (65536i64, 9i64, 36i64, 268435457i64, 1i64, 0i64),
        )
        .expect("inserted");
    db_tx
        .execute(
            "INSERT INTO transactions VALUES (?, ?, ?, ?, ?, ?)",
            (65536i64, 11i64, 1i64, 268435457i64, 1i64, 1i64),
        )
        .expect("inserted");

    let (root_tx, last_tx) = SyncMetadataClient::root_and_head_tx(&db_tx).expect("last tx");
    assert_eq!(268435456, root_tx);
    assert_eq!(268435457, last_tx);
}

#[test]
fn remote_head_missing_row_is_not_found() {
    let mut conn = setup_conn_bare();
    let tx = setup_tx(&mut conn);
    let err = SyncMetadataClient::remote_head(&tx).expect_err("no row seeded");
    assert!(matches!(err, TolstoyError::NotFound));
}

#[test]
fn remote_head_short_blob_is_malformed() {
    let mut conn = setup_conn_bare();
    conn.execute(
        "INSERT INTO tolstoy_metadata (key, value) VALUES (?, zeroblob(15))",
        ["remote_head"],
    )
    .expect("seed short blob");
    let tx = setup_tx(&mut conn);
    let err = SyncMetadataClient::remote_head(&tx).expect_err("blob too short");
    assert!(matches!(err, TolstoyError::MalformedData));
}

#[test]
fn remote_head_missing_table_is_storage_fault() {
    let mut conn = rusqlite::Connection::open_in_memory().expect("open in-memory db");
    let tx = setup_tx(&mut conn);
    let err = SyncMetadataClient::remote_head(&tx).expect_err("no metadata table");
    assert!(matches!(err, TolstoyError::StorageFault(_)));
}

#[test]
fn set_remote_head_zero_rows_fails_and_inserts_nothing() {
    let mut conn = setup_conn_bare();
    let tx = setup_tx(&mut conn);
    let uuid = Uuid::nil();
    let err = SyncMetadataClient::set_remote_head(&tx, &uuid).expect_err("no row to update");
    match err {
        TolstoyError::DuplicateMetadata(key) => assert_eq!("remote_head", key),
        other => panic!("expected DuplicateMetadata, got {:?}", other),
    }
    let count: i64 = tx
        .query_row("SELECT COUNT(*) FROM tolstoy_metadata", [], |row| row.get(0))
        .expect("count");
    assert_eq!(0, count);
}

#[test]
fn set_remote_head_two_rows_fails() {
    let mut conn = rusqlite::Connection::open_in_memory().expect("open in-memory db");
    conn.execute(
        "CREATE TABLE tolstoy_metadata (key TEXT NOT NULL, value BLOB NOT NULL)",
        [],
    )
    .expect("create metadata table without unique key");
    conn.execute(
        "INSERT INTO tolstoy_metadata (key, value) VALUES (?, zeroblob(16))",
        ["remote_head"],
    )
    .expect("first row");
    conn.execute(
        "INSERT INTO tolstoy_metadata (key, value) VALUES (?, zeroblob(16))",
        ["remote_head"],
    )
    .expect("second row");
    let tx = setup_tx(&mut conn);
    let uuid = Uuid::nil();
    let err = SyncMetadataClient::set_remote_head(&tx, &uuid).expect_err("two rows match");
    match err {
        TolstoyError::DuplicateMetadata(key) => assert_eq!("remote_head", key),
        other => panic!("expected DuplicateMetadata, got {:?}", other),
    }
}

#[test]
fn get_partitions_empty_table_is_empty_mapping() {
    let mut conn = rusqlite::Connection::open_in_memory().expect("open in-memory db");
    setup_parts_tables(&conn);
    let tx = setup_tx(&mut conn);
    let parts = SyncMetadataClient::get_partitions(&tx, PartitionsTable::Core).expect("query");
    assert!(parts.is_empty());
    assert_eq!(0, parts.len());
}

#[test]
fn get_partitions_returns_stored_rows() {
    let mut conn = rusqlite::Connection::open_in_memory().expect("open in-memory db");
    setup_parts_tables(&conn);
    conn.execute(
        "INSERT INTO parts (part, start, end, idx) VALUES (?, ?, ?, ?)",
        ("db", 0i64, 100i64, 50i64),
    )
    .expect("insert partition");
    let tx = setup_tx(&mut conn);
    let parts = SyncMetadataClient::get_partitions(&tx, PartitionsTable::Core).expect("query");
    assert_eq!(1, parts.len());
    let db_part = parts.get(&"db".to_string()).expect("db partition present");
    assert_eq!(0, db_part.start);
    assert_eq!(100, db_part.end);
    assert_eq!(50, db_part.idx);
}

#[test]
fn get_partitions_reads_selected_table() {
    let mut conn = rusqlite::Connection::open_in_memory().expect("open in-memory db");
    setup_parts_tables(&conn);
    conn.execute(
        "INSERT INTO tolstoy_parts (part, start, end, idx) VALUES (?, ?, ?, ?)",
        ("tx", 7i64, 9i64, 8i64),
    )
    .expect("insert sync partition");
    let tx = setup_tx(&mut conn);
    let core = SyncMetadataClient::get_partitions(&tx, PartitionsTable::Core).expect("query");
    assert!(core.is_empty());
    let sync = SyncMetadataClient::get_partitions(&tx, PartitionsTable::Tolstoy).expect("query");
    assert_eq!(1, sync.len());
    let tx_part = sync.get(&"tx".to_string()).expect("tx partition present");
    assert_eq!(7, tx_part.start);
    assert_eq!(9, tx_part.end);
    assert_eq!(8, tx_part.idx);
}

#[test]
fn get_partitions_undecodable_column_is_storage_fault() {
    let mut conn = rusqlite::Connection::open_in_memory().expect("open in-memory db");
    conn.execute(
        "CREATE TABLE parts (part TEXT NOT NULL PRIMARY KEY, start BLOB NOT NULL, end INTEGER NOT NULL, idx INTEGER NOT NULL)",
        [],
    )
    .expect("create lax parts table");
    conn.execute(
        "INSERT INTO parts (part, start, end, idx) VALUES (?, ?, ?, ?)",
        ("db", "not a number", 100i64, 50i64),
    )
    .expect("insert bad row");
    let tx = setup_tx(&mut conn);
    let err = SyncMetadataClient::get_partitions(&tx, PartitionsTable::Core)
        .expect_err("column does not decode");
    assert!(matches!(err, TolstoyError::StorageFault(_)));
}

#[test]
fn root_and_head_tx_empty_log_is_unexpected_state() {
    let mut conn = rusqlite::Connection::open_in_memory().expect("open in-memory db");
    setup_transactions_table(&conn);
    let tx = setup_tx(&mut conn);
    let err = SyncMetadataClient::root_and_head_tx(&tx).expect_err("log is empty");
    assert!(matches!(err, TolstoyError::UnexpectedState(_)));
}

#[test]
fn root_and_head_tx_ignores_insertion_order() {
    let mut conn = rusqlite::Connection::open_in_memory().expect("open in-memory db");
    setup_transactions_table(&conn);
    // The higher transaction id goes in first; ascending id order must still
    // decide which is root and which is head.
    conn.execute(
        "INSERT INTO transactions VALUES (?, ?, ?, ?, ?, ?)",
        (268435457i64, 3i64, 1529971773701734i64, 268435457i64, 1i64, 4i64),
    )
    .expect("inserted");
    conn.execute(
        "INSERT INTO transactions VALUES (?, ?, ?, ?, ?, ?)",
        (268435456i64, 3i64, 1529971773701733i64, 268435456i64, 1i64, 4i64),
    )
    .expect("inserted");
    let tx = setup_tx(&mut conn);
    let (root_tx, last_tx) = SyncMetadataClient::root_and_head_tx(&tx).expect("bounds");
    assert_eq!(268435456, root_tx);
    assert_eq!(268435457, last_tx);
}

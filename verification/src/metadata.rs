use vstd::prelude::*;

use crate::errors::TolstoyError;
use crate::partitions::Partition;
use crate::partitions::PartitionMap;
use crate::schema;
use crate::sql;
use crate::types::Entid;
use crate::types::Uuid;
use crate::types::strictly_ascending;

verus! {

/// Which partition allocation table to read: the core data-model partitions
/// or the sync-specific ones. A closed choice, so that no caller-supplied
/// string ever reaches the SQL text.
#[derive(Clone, Copy, Debug, PartialEq, Eq, Structural)]
pub enum PartitionsTable {
    Core,
    Tolstoy,
}

impl PartitionsTable {
    /// The name of the selected table.
    fn table_name(&self) -> (r: &'static str)
        ensures
            self is Core ==> r@ == "parts"@,
            self is Tolstoy ==> r@ == "tolstoy_parts"@,
    {
        match self {
            PartitionsTable::Core => "parts",
            PartitionsTable::Tolstoy => "tolstoy_parts",
        }
    }
}

/// The singleton-row guard: an update of the remote-head row must have
/// changed exactly one row. Zero or several changed rows mean the metadata
/// table's one-row-per-key invariant does not hold, and the write is
/// refused as `DuplicateMetadata` on the remote-head key.
pub fn check_updated_count(updated: usize) -> (r: Result<(), TolstoyError>)
    ensures
        updated == 1 <==> r is Ok,
        updated != 1 ==> (r matches Err(TolstoyError::DuplicateMetadata(k)) && k@
            == schema::spec_remote_head_key()),
{
    if updated == 1 {
        Ok(())
    } else {
        Err(TolstoyError::DuplicateMetadata(schema::remote_head_key().to_owned()))
    }
}

/// In an ascending id sequence the first element is the minimum and the
/// last the maximum: the order by id, not the order of insertion,
/// determines the log's bounds.
pub proof fn lemma_ascending_bounds(s: Seq<Entid>)
    requires
        strictly_ascending(s),
        s.len() > 0,
    ensures
        forall|i: int| 0 <= i < s.len() ==> s.first() <= #[trigger] s[i] <= s.last(),
{
    assert forall|i: int| 0 <= i < s.len() implies s.first() <= #[trigger] s[i] <= s.last() by {
        if i > 0 {
            assert(s[0] < s[i]);
        }
        if i < s.len() - 1 {
            assert(s[i] < s[s.len() - 1]);
        }
    }
}

/// Derives the transaction-log bounds from the list of distinct transaction
/// ids as read from the log in ascending order: the first id is the root
/// and the last is the head. An empty log has no root; that is an invariant
/// violation of the surrounding store, not a normal empty case.
pub fn root_and_head_from(txs: &Vec<Entid>) -> (r: Result<(Entid, Entid), TolstoyError>)
    ensures
        match r {
            Ok(p) => txs@.len() > 0 && p.0 == txs@.first() && p.1 == txs@.last(),
            Err(e) => txs@.len() == 0 && (e matches TolstoyError::UnexpectedState(m) && m@
                == "Could not get root tx"@),
        },
        strictly_ascending(txs@) ==> (r matches Ok(p) ==> forall|i: int|
            0 <= i < txs@.len() ==> p.0 <= #[trigger] txs@[i] <= p.1),
{
    if txs.len() == 0 {
        Err(TolstoyError::UnexpectedState("Could not get root tx".to_owned()))
    } else {
        let root: Entid = txs[0];
        let head: Entid = txs[txs.len() - 1];
        proof {
            if strictly_ascending(txs@) {
                lemma_ascending_bounds(txs@);
            }
        }
        Ok((root, head))
    }
}

/// The mapping that a sequence of raw `(part, start, end, idx)` rows
/// denotes, a later row overriding an earlier one with the same name.
pub open spec fn map_of_rows(rows: Seq<(String, Entid, Entid, Entid)>) -> Map<Seq<char>, Partition>
    decreases rows.len(),
{
    if rows.len() == 0 {
        Map::empty()
    } else {
        map_of_rows(rows.drop_last()).insert(
            rows.last().0@,
            (Partition { start: rows.last().1, end: rows.last().2, idx: rows.last().3 }),
        )
    }
}

/// Folds the raw rows of a partition table into the partition mapping,
/// keyed by name, the last row winning on a duplicate name.
pub fn partitions_from_rows(rows: Vec<(String, Entid, Entid, Entid)>) -> (m: PartitionMap)
    ensures
        m@ == map_of_rows(rows@),
{
    let mut m = PartitionMap::new();
    let n: usize = rows.len();
    let mut i: usize = 0;
    while i < n
        invariant
            n == rows@.len(),
            i <= n,
            m@ == map_of_rows(rows@.take(i as int)),
        decreases n - i,
    {
        let name = rows[i].0.clone();
        m.insert(name, Partition::new(rows[i].1, rows[i].2, rows[i].3));
        proof {
            assert(rows@.take(i + 1 as int).drop_last() =~= rows@.take(i as int));
            assert(rows@.take(i + 1 as int).last() == rows@[i as int]);
        }
        i = i + 1;
    }
    proof {
        assert(rows@.take(n as int) =~= rows@);
    }
    m
}

/// The metadata accessor: a set of stateless operations over the sync
/// metadata of the store, each run inside a transaction supplied by the
/// caller.
pub struct SyncMetadataClient {}

impl SyncMetadataClient {
    /// Reads the remote sync head: the single metadata row keyed by the
    /// remote-head key, decoded as a 128-bit identifier. An absent row is
    /// `NotFound`; a stored value of the wrong size is `MalformedData`.
    pub fn remote_head(tx: &rusqlite::Transaction) -> (r: Result<Uuid, TolstoyError>)
        ensures
            r matches Ok(u) ==> u@.len() == 16,
            r matches Err(e) ==> e is NotFound || e is MalformedData || e is StorageFault,
    {
        let bytes = match sql::query_metadata_value(tx, schema::remote_head_key()) {
            Ok(b) => b,
            Err(e) => {
                return Err(e);
            },
        };
        Uuid::from_bytes(bytes.as_slice())
    }

    /// Overwrites the remote sync head with the identifier's canonical
    /// 16-byte form. The update must change exactly one row; otherwise the
    /// singleton-row invariant is broken and the call fails with
    /// `DuplicateMetadata` without having inserted anything.
    pub fn set_remote_head(tx: &rusqlite::Transaction, uuid: &Uuid) -> (r: Result<
        (),
        TolstoyError,
    >)
        ensures
            r matches Err(e) ==> (e matches TolstoyError::DuplicateMetadata(k) && k@
                == schema::spec_remote_head_key()) || e is StorageFault,
    {
        let bytes = uuid.as_bytes();
        let updated = match sql::update_metadata_value(tx, schema::remote_head_key(), bytes) {
            Ok(n) => n,
            Err(e) => {
                return Err(e);
            },
        };
        check_updated_count(updated)
    }

    /// Reads the selected partition table into a mapping from partition
    /// name to its `(start, end, idx)` triple.
    pub fn get_partitions(tx: &rusqlite::Transaction, parts_table: PartitionsTable) -> (r: Result<
        PartitionMap,
        TolstoyError,
    >)
        ensures
            r matches Err(e) ==> e is StorageFault,
    {
        let rows = match sql::query_partition_rows(tx, parts_table.table_name()) {
            Ok(v) => v,
            Err(e) => {
                return Err(e);
            },
        };
        Ok(partitions_from_rows(rows))
    }

    /// Derives the bounds of the local transaction log: the smallest
    /// committed transaction id (the root) and the largest (the head). A
    /// log with zero transactions fails with `UnexpectedState`.
    pub fn root_and_head_tx(tx: &rusqlite::Transaction) -> (r: Result<
        (Entid, Entid),
        TolstoyError,
    >)
        ensures
            r matches Ok(p) ==> p.0 <= p.1,
            r matches Err(e) ==> (e matches TolstoyError::UnexpectedState(m) && m@
                == "Could not get root tx"@) || e is StorageFault,
    {
        let txs = match sql::query_tx_ids(tx) {
            Ok(v) => v,
            Err(e) => {
                return Err(e);
            },
        };
        let r = root_and_head_from(&txs);
        proof {
            match r {
                Ok(p) => {
                    assert(p.0 <= txs@[0] <= p.1);
                },
                Err(_) => {},
            }
        }
        r
    }
}

} // verus!

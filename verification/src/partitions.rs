use vstd::prelude::*;

use crate::types::Entid;

verus! {

/// A named contiguous range of entity identifiers `[start, end)` together
/// with its current allocation cursor. The three values are read from the
/// store and trusted as persisted; this crate does not enforce
/// `start <= idx <= end` on them.
#[derive(Clone, Copy, Debug, PartialEq, Eq, Structural)]
pub struct Partition {
    pub start: Entid,
    pub end: Entid,
    pub idx: Entid,
}

impl Partition {
    pub fn new(start: Entid, end: Entid, idx: Entid) -> (p: Partition)
        ensures
            p == (Partition { start, end, idx }),
    {
        Partition { start, end, idx }
    }
}

/// The mapping that a sequence of `(name, partition)` rows denotes: each row
/// in turn binds its name, a later row overriding an earlier one with the
/// same name.
pub open spec fn map_of(entries: Seq<(String, Partition)>) -> Map<Seq<char>, Partition>
    decreases entries.len(),
{
    if entries.len() == 0 {
        Map::empty()
    } else {
        map_of(entries.drop_last()).insert(entries.last().0@, entries.last().1)
    }
}

/// No two rows carry the same partition name.
pub open spec fn unique_names(entries: Seq<(String, Partition)>) -> bool {
    forall|i: int, j: int|
        0 <= i < j < entries.len() ==> entries[i].0@ != entries[j].0@
}

proof fn lemma_map_of_push(entries: Seq<(String, Partition)>, e: (String, Partition))
    ensures
        map_of(entries.push(e)) == map_of(entries).insert(e.0@, e.1),
{
    assert(entries.push(e).drop_last() =~= entries);
}

proof fn lemma_map_of_contains(entries: Seq<(String, Partition)>, k: Seq<char>)
    ensures
        map_of(entries).contains_key(k) <==> (exists|i: int|
            0 <= i < entries.len() && entries[i].0@ == k),
    decreases entries.len(),
{
    if entries.len() > 0 {
        lemma_map_of_contains(entries.drop_last(), k);
        if entries.last().0@ == k {
            assert(entries[entries.len() - 1].0@ == k);
        } else {
            if exists|i: int| 0 <= i < entries.len() && entries[i].0@ == k {
                let i = choose|i: int| 0 <= i < entries.len() && entries[i].0@ == k;
                assert(entries.drop_last()[i] == entries[i]);
            }
        }
    }
}

proof fn lemma_map_of_at(entries: Seq<(String, Partition)>, i: int)
    requires
        unique_names(entries),
        0 <= i < entries.len(),
    ensures
        map_of(entries).contains_key(entries[i].0@),
        map_of(entries)[entries[i].0@] == entries[i].1,
    decreases entries.len(),
{
    if i < entries.len() - 1 {
        assert(unique_names(entries.drop_last()));
        lemma_map_of_at(entries.drop_last(), i);
        assert(entries.drop_last()[i] == entries[i]);
        assert(entries.last().0@ != entries[i].0@);
    }
}

proof fn lemma_map_of_update(s: Seq<(String, Partition)>, i: int, e: (String, Partition))
    requires
        unique_names(s),
        0 <= i < s.len(),
        s[i].0@ == e.0@,
    ensures
        map_of(s.update(i, e)) == map_of(s).insert(e.0@, e.1),
    decreases s.len(),
{
    let u = s.update(i, e);
    if i == s.len() - 1 {
        assert(u.drop_last() =~= s.drop_last());
        assert(u.last() == e);
        assert(map_of(s.drop_last()).insert(s.last().0@, s.last().1).insert(e.0@, e.1)
            =~= map_of(s.drop_last()).insert(e.0@, e.1));
    } else {
        let el = s.last();
        assert(u.last() == el);
        assert(u.drop_last() =~= s.drop_last().update(i, e));
        assert(unique_names(s.drop_last()));
        assert(s.drop_last()[i] == s[i]);
        lemma_map_of_update(s.drop_last(), i, e);
        assert(el.0@ != e.0@);
        assert(map_of(s.drop_last()).insert(e.0@, e.1).insert(el.0@, el.1)
            =~= map_of(s.drop_last()).insert(el.0@, el.1).insert(e.0@, e.1));
    }
}

proof fn lemma_map_of_dom_len(entries: Seq<(String, Partition)>)
    requires
        unique_names(entries),
    ensures
        map_of(entries).dom().finite(),
        map_of(entries).dom().len() == entries.len(),
    decreases entries.len(),
{
    if entries.len() > 0 {
        assert(unique_names(entries.drop_last()));
        lemma_map_of_dom_len(entries.drop_last());
        lemma_map_of_contains(entries.drop_last(), entries.last().0@);
        assert(forall|i: int|
            0 <= i < entries.drop_last().len() ==> entries.drop_last()[i] == entries[i]);
        assert(!map_of(entries.drop_last()).contains_key(entries.last().0@));
    }
}

/// The partition allocation table, read into memory: a mapping from
/// partition name to partition, with one entry per name.
#[derive(Debug, PartialEq, Eq)]
pub struct PartitionMap {
    entries: Vec<(String, Partition)>,
}

impl View for PartitionMap {
    type V = Map<Seq<char>, Partition>;

    closed spec fn view(&self) -> Map<Seq<char>, Partition> {
        map_of(self.entries@)
    }
}

impl PartitionMap {
    #[verifier::type_invariant]
    spec fn inv(self) -> bool {
        unique_names(self.entries@)
    }

    /// An empty mapping.
    pub fn new() -> (m: PartitionMap)
        ensures
            m@ == Map::<Seq<char>, Partition>::empty(),
    {
        PartitionMap { entries: Vec::new() }
    }

    /// Binds `part` to `value`, overriding any earlier binding of the same
    /// name (last write wins).
    pub fn insert(&mut self, part: String, value: Partition)
        ensures
            final(self)@ == old(self)@.insert(part@, value),
    {
        proof {
            use_type_invariant(&*self);
        }
        let ghost old_entries = self.entries@;
        let ghost partv = part@;
        let mut entries: Vec<(String, Partition)> = Vec::new();
        std::mem::swap(&mut entries, &mut self.entries);
        let n: usize = entries.len();
        let mut hit: Option<usize> = None;
        let mut i: usize = 0;
        while i < n
            invariant
                n == entries@.len(),
                entries@ == old_entries,
                i <= n,
                partv == part@,
                match hit {
                    Some(h) => h < i && entries@[h as int].0@ == partv,
                    None => forall|j: int| 0 <= j < i ==> entries@[j].0@ != partv,
                },
            decreases n - i,
        {
            if hit.is_none() && entries[i].0 == part {
                hit = Some(i);
            }
            i = i + 1;
        }
        match hit {
            Some(h) => {
                entries[h] = (part, value);
                proof {
                    assert(entries@ == old_entries.update(h as int, entries@[h as int]));
                    lemma_map_of_update(old_entries, h as int, entries@[h as int]);
                    assert forall|a: int, b: int|
                        0 <= a < b < entries@.len() implies entries@[a].0@ != entries@[b].0@ by {
                        assert(forall|x: int|
                            0 <= x < entries@.len() ==> entries@[x].0@ == old_entries[x].0@);
                    }
                }
            },
            None => {
                entries.push((part, value));
                proof {
                    lemma_map_of_push(old_entries, entries@.last());
                    assert forall|a: int, b: int|
                        0 <= a < b < entries@.len() implies entries@[a].0@ != entries@[b].0@ by {
                        assert(forall|x: int|
                            0 <= x < old_entries.len() ==> entries@[x] == old_entries[x]);
                    }
                }
            },
        }
        self.entries = entries;
    }

    /// Looks a partition up by name.
    pub fn get(&self, part: &String) -> (r: Option<&Partition>)
        ensures
            match r {
                Some(p) => self@.contains_key(part@) && *p == self@[part@],
                None => !self@.contains_key(part@),
            },
    {
        proof {
            use_type_invariant(self);
        }
        let n: usize = self.entries.len();
        let mut i: usize = 0;
        while i < n
            invariant
                n == self.entries@.len(),
                i <= n,
                unique_names(self.entries@),
                self@ == map_of(self.entries@),
                forall|j: int| 0 <= j < i ==> self.entries@[j].0@ != part@,
            decreases n - i,
        {
            let e = &self.entries[i];
            if e.0 == *part {
                proof {
                    lemma_map_of_at(self.entries@, i as int);
                }
                return Some(&e.1);
            }
            i = i + 1;
        }
        proof {
            lemma_map_of_contains(self.entries@, part@);
        }
        None
    }

    /// How many partitions the mapping holds.
    pub fn len(&self) -> (n: usize)
        ensures
            self@.dom().finite(),
            n == self@.dom().len(),
    {
        proof {
            use_type_invariant(self);
            lemma_map_of_dom_len(self.entries@);
        }
        self.entries.len()
    }

    /// Whether the mapping holds no partition at all.
    pub fn is_empty(&self) -> (b: bool)
        ensures
            b <==> self@ == Map::<Seq<char>, Partition>::empty(),
    {
        proof {
            use_type_invariant(self);
            if self.entries@.len() > 0 {
                lemma_map_of_at(self.entries@, self.entries@.len() - 1);
                assert(!Map::<Seq<char>, Partition>::empty().contains_key(
                    self.entries@.last().0@));
            }
        }
        self.entries.is_empty()
    }
}

} // verus!

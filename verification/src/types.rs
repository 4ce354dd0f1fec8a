use vstd::prelude::*;
use vstd::slice::slice_to_vec;

use crate::errors::TolstoyError;

verus! {

/// An entity or transaction identifier in the store.
pub type Entid = i64;

/// The sequence is sorted strictly ascending: the form in which the
/// transaction log's distinct ids are read.
pub open spec fn strictly_ascending(s: Seq<Entid>) -> bool {
    forall|i: int, j: int| 0 <= i < j < s.len() ==> s[i] < s[j]
}

/// The all-zero identifier bytes: the pre-sync default remote head.
pub open spec fn nil_bytes() -> Seq<u8> {
    Seq::new(16, |i: int| 0u8)
}

/// Canonical serialized form of an identifier: its sixteen bytes.
pub open spec fn encoded(u: Uuid) -> Seq<u8> {
    u@
}

/// Decoding of a stored buffer: the buffer itself when it is exactly sixteen
/// bytes long, and nothing otherwise.
pub open spec fn decoded(b: Seq<u8>) -> Option<Seq<u8>> {
    if b.len() == 16 {
        Some(b)
    } else {
        None
    }
}

/// A 128-bit globally unique identifier, held in its 16-byte canonical form.
#[derive(Debug, PartialEq, Eq)]
pub struct Uuid {
    bytes: Vec<u8>,
}

impl View for Uuid {
    type V = Seq<u8>;

    closed spec fn view(&self) -> Seq<u8> {
        self.bytes@
    }
}

impl Uuid {
    #[verifier::type_invariant]
    spec fn inv(self) -> bool {
        self.bytes@.len() == 16
    }

    /// The nil (all-zero) identifier: the remote head before any sync has
    /// been acknowledged.
    pub fn nil() -> (u: Uuid)
        ensures
            u@ == nil_bytes(),
    {
        let mut bytes: Vec<u8> = Vec::new();
        let mut i: usize = 0;
        while i < 16
            invariant
                i <= 16,
                bytes@.len() == i,
                forall|j: int| 0 <= j < i ==> bytes@[j] == 0u8,
            decreases 16 - i,
        {
            bytes.push(0u8);
            i = i + 1;
        }
        proof {
            assert(bytes@ =~= nil_bytes());
        }
        Uuid { bytes }
    }

    /// Decodes a stored byte buffer into an identifier. A buffer of any
    /// length other than sixteen is malformed.
    pub fn from_bytes(b: &[u8]) -> (r: Result<Uuid, TolstoyError>)
        ensures
            match r {
                Ok(u) => decoded(b@) == Some(u@),
                Err(e) => decoded(b@) is None && e is MalformedData,
            },
    {
        if b.len() == 16 {
            Ok(Uuid { bytes: slice_to_vec(b) })
        } else {
            Err(TolstoyError::MalformedData)
        }
    }

    /// The canonical 16-byte serialized form.
    pub fn as_bytes(&self) -> (r: &Vec<u8>)
        ensures
            r@ == encoded(*self),
            r@.len() == 16,
    {
        proof {
            use_type_invariant(self);
        }
        &self.bytes
    }

}

/// Round-trip law: decoding the canonical encoding of any identifier yields
/// exactly that identifier's bytes. Every identifier handed out by this
/// module is sixteen bytes long (`as_bytes` and `from_bytes` both say so),
/// so the premise holds of each of them. This is the serialization half of
/// the remote-head round trip; the storage half is the store's own promise
/// that a committed value is read back unchanged.
pub proof fn lemma_uuid_round_trip(u: Uuid)
    requires
        u@.len() == 16,
    ensures
        decoded(encoded(u)) == Some(u@),
{
}

} // verus!

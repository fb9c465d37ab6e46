//! Bounded CAN payload: a byte sequence of at most eight bytes, stored in
//! fixed-capacity storage with no heap allocation.

use vstd::prelude::*;
use vstd::slice::slice_subrange;

verus! {

/// Largest number of payload bytes a CAN frame can carry.
pub const MAX_PAYLOAD: usize = 8;

/// A CAN payload: up to eight bytes with the length recorded at
/// construction, held in fixed storage. The checked constructor is the only
/// way to build one, so every value holds at most eight bytes; the unused
/// tail of the storage is kept zeroed so that equality of values is
/// equality of the carried bytes.
#[derive(Clone, Copy, Debug, PartialEq, Eq)]
pub struct Data {
    bytes: [u8; 8],
    len: u8,
}

impl View for Data {
    type V = Seq<u8>;

    closed spec fn view(&self) -> Seq<u8> {
        self.bytes@.subrange(0, self.len as int)
    }
}

impl Data {
    #[verifier::type_invariant]
    closed spec fn type_inv(self) -> bool {
        &&& self.len <= MAX_PAYLOAD
        &&& forall|i: int| self.len <= i < 8 ==> self.bytes@[i] == 0
    }

    /// Copies `bytes` into a new payload; rejects slices longer than eight
    /// bytes. On success the stored bytes equal the input exactly.
    pub fn new(bytes: &[u8]) -> (r: Option<Data>)
        ensures
            r is Some <==> bytes@.len() <= MAX_PAYLOAD,
            r matches Some(d) ==> d@ == bytes@,
    {
        let n = bytes.len();
        if n <= MAX_PAYLOAD {
            let mut stored: [u8; 8] = [0u8; 8];
            let mut i: usize = 0;
            while i < n
                invariant
                    i <= n,
                    n == bytes@.len(),
                    n <= MAX_PAYLOAD,
                    forall|j: int| 0 <= j < i ==> stored@[j] == bytes@[j],
                    forall|j: int| i <= j < 8 ==> stored@[j] == 0,
                decreases n - i,
            {
                stored[i] = bytes[i];
                i += 1;
            }
            let d = Data { bytes: stored, len: n as u8 };
            proof {
                assert(d@ =~= bytes@);
            }
            Some(d)
        } else {
            None
        }
    }

    /// An empty payload.
    pub fn empty() -> (r: Data)
        ensures
            r@ == Seq::<u8>::empty(),
    {
        let d = Data { bytes: [0u8; 8], len: 0 };
        proof {
            assert(d@ =~= Seq::<u8>::empty());
        }
        d
    }

    /// Number of payload bytes; never more than eight.
    pub fn len(&self) -> (n: usize)
        ensures
            n == self@.len(),
            n <= MAX_PAYLOAD,
    {
        proof {
            use_type_invariant(self);
        }
        self.len as usize
    }

    /// The payload bytes as a slice.
    pub fn as_slice(&self) -> (r: &[u8])
        ensures
            r@ == self@,
            r@.len() <= MAX_PAYLOAD,
    {
        proof {
            use_type_invariant(self);
        }
        slice_subrange(self.bytes.as_slice(), 0, self.len as usize)
    }
}

} // verus!

//! Account and contract identifiers.
use vstd::prelude::*;

verus! {

/// A 20-byte account or contract identifier.
#[derive(Clone, Copy, Debug, PartialEq, Eq)]
pub struct ChainAddress {
    pub bytes: [u8; 20],
}

impl ChainAddress {
    pub fn new(bytes: [u8; 20]) -> (r: ChainAddress)
        ensures
            r.bytes == bytes,
    {
        ChainAddress { bytes }
    }

    /// Whether both identifiers hold the same bytes.
    pub fn same_as(&self, other: &ChainAddress) -> (r: bool)
        ensures
            r == (*self == *other),
    {
        let mut k: usize = 0;
        while k < 20
            invariant
                k <= 20,
                forall|j: int| 0 <= j < k ==> self.bytes[j] == other.bytes[j],
            decreases 20 - k,
        {
            if self.bytes[k] != other.bytes[k] {
                return false;
            }
            k = k + 1;
        }
        assert(self.bytes =~= other.bytes);
        true
    }
}

} // verus!

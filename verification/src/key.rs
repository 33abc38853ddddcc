use vstd::prelude::*;

verus! {

/// A 32-byte account address.
#[derive(Clone, Copy, Debug)]
pub struct Pubkey {
    pub bytes: [u8; 32],
}

impl View for Pubkey {
    type V = Seq<u8>;

    open spec fn view(&self) -> Seq<u8> {
        self.bytes@
    }
}

impl Pubkey {
    /// Builds an address from its 32 bytes.
    pub fn new_from_array(bytes: [u8; 32]) -> (k: Pubkey)
        ensures
            k@ == bytes@,
    {
        Pubkey { bytes }
    }

    /// The 32 bytes of the address.
    pub fn to_bytes(&self) -> (b: [u8; 32])
        ensures
            b@ == self@,
    {
        self.bytes
    }

    /// The bytes of the address, as a vector (an address used as a seed).
    pub fn to_vec(&self) -> (v: Vec<u8>)
        ensures
            v@ == self@,
            v@.len() == 32,
    {
        let mut v: Vec<u8> = Vec::new();
        let mut i: usize = 0;
        while i < 32
            invariant
                i <= 32,
                v@ == self.bytes@.take(i as int),
            decreases 32 - i,
        {
            v.push(self.bytes[i]);
            i = i + 1;
        }
        proof {
            assert(self.bytes@.take(32) =~= self.bytes@);
        }
        v
    }

    /// Whether two addresses are the same.
    pub fn equals(&self, other: &Pubkey) -> (r: bool)
        ensures
            r == (self@ == other@),
    {
        let mut i: usize = 0;
        while i < 32
            invariant
                i <= 32,
                forall|j: int| 0 <= j < i ==> self.bytes@[j] == other.bytes@[j],
            decreases 32 - i,
        {
            if self.bytes[i] != other.bytes[i] {
                return false;
            }
            i = i + 1;
        }
        proof {
            assert(self.bytes@ =~= other.bytes@);
        }
        true
    }
}

} // verus!

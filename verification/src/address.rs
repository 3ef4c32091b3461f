use vstd::prelude::*;

verus! {

/// Number of bytes in an identity or storage address.
pub const ADDRESS_BYTES: usize = 32;

/// A 32-byte identifier: a party's identity, a program's identity, or
/// the storage address of an account.
#[derive(Clone, Copy, Debug, PartialEq, Eq)]
pub struct Address {
    pub bytes: [u8; 32],
}

impl View for Address {
    type V = Seq<u8>;

    open spec fn view(&self) -> Seq<u8> {
        self.bytes@
    }
}

impl Address {
    /// Wraps raw identifier bytes.
    pub fn new(bytes: [u8; 32]) -> (a: Address)
        ensures
            a@ == bytes@,
    {
        Address { bytes }
    }

    /// Byte-wise equality of two addresses.
    pub fn equals(&self, other: &Address) -> (r: bool)
        ensures
            r == (self@ == other@),
    {
        let mut i: usize = 0;
        while i < 32
            invariant
                i <= 32,
                forall|k: int| 0 <= k < i ==> self.bytes@[k] == other.bytes@[k],
            decreases 32 - i,
        {
            if self.bytes[i] != other.bytes[i] {
                assert(self@[i as int] != other@[i as int]);
                return false;
            }
            i = i + 1;
        }
        proof {
            assert(self.bytes@ =~= other.bytes@);
        }
        true
    }
}

/// The fixed domain seed under which every campaign address is derived.
pub open spec fn campaign_seed() -> Seq<u8> {
    seq![99u8, 114u8, 111u8, 119u8, 100u8, 102u8, 117u8, 110u8, 100u8]
}

/// The bytes of the domain seed, spelling "crowdfund" in UTF-8.
pub fn campaign_seed_bytes() -> (s: Vec<u8>)
    ensures
        s@ == campaign_seed(),
{
    let mut s: Vec<u8> = Vec::new();
    s.push(99);
    s.push(114);
    s.push(111);
    s.push(119);
    s.push(100);
    s.push(102);
    s.push(117);
    s.push(110);
    s.push(100);
    proof {
        assert(s@ =~= campaign_seed());
    }
    s
}

} // verus!

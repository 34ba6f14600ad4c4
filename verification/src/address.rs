//! Thirty-two byte account addresses.

use vstd::prelude::*;

verus! {

/// The address whose bytes are all zero: the mark of an unused slot.
pub open spec fn zero_address() -> Seq<u8> {
    Seq::new(32, |i: int| 0u8)
}

/// The address of an account, a program or a token mint.
#[derive(Clone, Copy, Debug, PartialEq, Eq)]
pub struct Address {
    pub bytes: [u8; 32],
}

impl View for Address {
    type V = Seq<u8>;

    open spec fn view(&self) -> Seq<u8> {
        self.bytes@
    }
}

impl Default for Address {
    /// The all-zero address.
    fn default() -> (r: Self)
        ensures
            r@ == zero_address(),
    {
        let r = Address { bytes: [0u8; 32] };
        assert(r@ =~= zero_address());
        r
    }
}

impl Address {
    /// Wraps thirty-two bytes as an address.
    pub fn new(bytes: [u8; 32]) -> (r: Self)
        ensures
            r@ == bytes@,
            r.bytes == bytes,
    {
        Address { bytes }
    }

    /// The bytes of the address.
    pub fn to_bytes(&self) -> (r: [u8; 32])
        ensures
            r@ == self@,
    {
        self.bytes
    }

    /// Whether two addresses hold the same bytes.
    pub fn same(&self, other: &Address) -> (r: bool)
        ensures
            r == (self@ == other@),
    {
        let mut i: usize = 0;
        while i < 32
            invariant
                i <= 32,
                forall|k: int| 0 <= k < i ==> self.bytes@[k] == other.bytes@[k],
            decreases 32 - i,
        {
            if self.bytes[i] != other.bytes[i] {
                return false;
            }
            i += 1;
        }
        assert(self@ =~= other@);
        true
    }

    /// Whether every byte of the address is zero.
    pub fn is_default(&self) -> (r: bool)
        ensures
            r == (self@ == zero_address()),
    {
        let mut i: usize = 0;
        while i < 32
            invariant
                i <= 32,
                forall|k: int| 0 <= k < i ==> self.bytes@[k] == 0u8,
            decreases 32 - i,
        {
            if self.bytes[i] != 0 {
                assert(zero_address()[i as int] == 0u8);
                return false;
            }
            i += 1;
        }
        assert(self@ =~= zero_address());
        true
    }
}

} // verus!

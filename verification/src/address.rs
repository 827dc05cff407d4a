use vstd::prelude::*;

verus! {

/// The 32-byte public key of an account, held as plain bytes.
#[derive(Clone, Copy, Debug, Default, PartialEq, Eq)]
pub struct Address {
    pub bytes: [u8; 32],
}

impl Address {
    /// The bytes of the key as a sequence.
    pub open spec fn view(&self) -> Seq<u8> {
        self.bytes@
    }

    /// Whether two keys name the same account.
    pub fn same(&self, other: &Address) -> (r: bool)
        ensures
            r == (self@ == other@),
    {
        let mut i: usize = 0;
        while i < 32
            invariant
                0 <= i <= 32,
                self@.len() == 32,
                other@.len() == 32,
                forall|j: int| 0 <= j < i ==> self@[j] == other@[j],
            decreases 32 - i,
        {
            if self.bytes[i] != other.bytes[i] {
                return false;
            }
            i = i + 1;
        }
        assert(self@ =~= other@);
        true
    }
}

} // verus!

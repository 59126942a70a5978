use vstd::prelude::*;

verus! {

/// Number of bytes in an account identity.
pub const ACCOUNT_ID_LEN: usize = 32;

/// The identity of a caller: 32 opaque bytes.
#[derive(Clone, Copy, Debug, PartialEq, Eq, Hash)]
pub struct AccountId(pub [u8; 32]);

impl View for AccountId {
    type V = Seq<u8>;

    open spec fn view(&self) -> Seq<u8> {
        self.0@
    }
}

impl AccountId {
    /// The all-zero identity, held before any caller was recorded.
    pub fn zero() -> (r: AccountId)
        ensures
            r@ == Seq::new(32, |_i: int| 0u8),
    {
        let r = AccountId([0u8; 32]);
        assert(r@ =~= Seq::new(32, |_i: int| 0u8));
        r
    }

    /// Byte-wise comparison of two identities.
    pub fn same_as(&self, other: &AccountId) -> (r: bool)
        ensures
            r == (self@ == other@),
    {
        let mut i: usize = 0;
        while i < ACCOUNT_ID_LEN
            invariant
                i <= ACCOUNT_ID_LEN,
                self@.len() == ACCOUNT_ID_LEN,
                other@.len() == ACCOUNT_ID_LEN,
                forall|j: int| 0 <= j < i ==> self@[j] == other@[j],
            decreases ACCOUNT_ID_LEN - i,
        {
            if self.0[i] != other.0[i] {
                return false;
            }
            i = i + 1;
        }
        assert(self@ =~= other@);
        true
    }
}

} // verus!

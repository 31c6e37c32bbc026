//! Thirty-two byte keys and addresses.

use vstd::prelude::*;
use vstd::std_specs::cmp::PartialEqSpecImpl;

verus! {

/// A 32-byte key: an owner key, or the derived address of a record.
#[derive(Clone, Copy, Debug, Eq)]
pub struct Pubkey {
    pub bytes: [u8; 32],
}

impl View for Pubkey {
    type V = Seq<u8>;

    open spec fn view(&self) -> Seq<u8> {
        self.bytes@
    }
}

impl PartialEq for Pubkey {
    fn eq(&self, other: &Pubkey) -> (r: bool) {
        let mut i: usize = 0;
        let mut equal = true;
        while i < 32
            invariant
                i <= 32,
                equal == (forall|j: int| 0 <= j < i ==> self.bytes[j] == other.bytes[j]),
            decreases 32 - i,
        {
            if self.bytes[i] != other.bytes[i] {
                equal = false;
            }
            i += 1;
        }
        proof {
            if equal {
                assert(self.bytes =~= other.bytes);
            }
        }
        equal
    }
}

impl PartialEqSpecImpl for Pubkey {
    open spec fn obeys_eq_spec() -> bool {
        true
    }

    open spec fn eq_spec(&self, other: &Pubkey) -> bool {
        *self == *other
    }
}

/// A key is known by its bytes.
pub proof fn lemma_view(a: Pubkey, b: Pubkey)
    ensures
        (a@ == b@) <==> (a == b),
{
    if a@ == b@ {
        assert(a.bytes =~= b.bytes);
    }
}

} // verus!

//! Account identities and the order in which a member list is kept.

use vstd::prelude::*;
use vstd::std_specs::cmp::PartialEqSpecImpl;

verus! {

/// A 32-byte account address.
#[derive(Clone, Copy, Debug, Eq)]
pub struct Pubkey {
    pub bytes: [u8; 32],
}

impl Pubkey {
    /// `k` is the first position at which the two keys hold different bytes.
    pub open spec fn differs_first_at(self, other: Pubkey, k: int) -> bool {
        &&& 0 <= k < 32
        &&& forall|j: int| 0 <= j < k ==> self.bytes[j] == other.bytes[j]
        &&& self.bytes[k] != other.bytes[k]
    }

    /// The lexicographic order on the 32 bytes: the keys differ, and at the
    /// first position where they do, `self` holds the smaller byte.
    pub open spec fn precedes(self, other: Pubkey) -> bool {
        exists|k: int| #[trigger] self.differs_first_at(other, k) && self.bytes[k] < other.bytes[k]
    }

    /// The two keys agree on their first `n` bytes.
    pub open spec fn agrees_up_to(self, other: Pubkey, n: int) -> bool {
        forall|j: int| 0 <= j < n ==> self.bytes[j] == other.bytes[j]
    }

    pub fn new_from_array(bytes: [u8; 32]) -> (key: Pubkey)
        ensures
            key.bytes == bytes,
    {
        Pubkey { bytes }
    }

    pub fn to_bytes(self) -> (bytes: [u8; 32])
        ensures
            bytes == self.bytes,
    {
        self.bytes
    }

    /// Length of the longest common prefix of the two keys.
    fn common_prefix(&self, other: &Pubkey) -> (n: usize)
        ensures
            n <= 32,
            self.agrees_up_to(*other, n as int),
            n < 32 ==> self.differs_first_at(*other, n as int),
    {
        let mut i: usize = 0;
        while i < 32 && self.bytes[i] == other.bytes[i]
            invariant
                i <= 32,
                self.agrees_up_to(*other, i as int),
            decreases 32 - i,
        {
            i += 1;
        }
        i
    }

    /// Whether `self` comes strictly before `other` in the order of member lists.
    pub fn lt(&self, other: &Pubkey) -> (r: bool)
        ensures
            r == self.precedes(*other),
    {
        let n: usize = self.common_prefix(other);
        if n < 32 {
            proof {
                lemma_first_difference_unique(*self, *other, n as int);
            }
            self.bytes[n] < other.bytes[n]
        } else {
            proof {
                lemma_agreeing_keys_equal(*self, *other);
                lemma_precedes_irreflexive(*self);
            }
            false
        }
    }
}

impl PartialEq for Pubkey {
    fn eq(&self, other: &Self) -> (r: bool) {
        let n: usize = self.common_prefix(other);
        proof {
            if n == 32 {
                lemma_agreeing_keys_equal(*self, *other);
            }
        }
        n == 32
    }
}

impl PartialEqSpecImpl for Pubkey {
    open spec fn obeys_eq_spec() -> bool {
        true
    }

    open spec fn eq_spec(&self, other: &Self) -> bool {
        *self == *other
    }
}

/// Keys that agree on all 32 bytes are the same key.
pub proof fn lemma_agreeing_keys_equal(a: Pubkey, b: Pubkey)
    requires
        a.agrees_up_to(b, 32),
    ensures
        a == b,
{
    assert(a.bytes =~= b.bytes);
}

/// Two keys have at most one first difference.
pub proof fn lemma_first_difference_unique(a: Pubkey, b: Pubkey, k: int)
    requires
        a.differs_first_at(b, k),
    ensures
        forall|m: int| #[trigger] a.differs_first_at(b, m) ==> m == k,
        a.precedes(b) == (a.bytes[k] < b.bytes[k]),
        b.differs_first_at(a, k),
{
}

/// Different keys differ at some first position.
pub proof fn lemma_first_difference_exists(a: Pubkey, b: Pubkey, n: int)
    requires
        0 <= n <= 32,
    ensures
        a.agrees_up_to(b, n) || exists|k: int| 0 <= k < n && #[trigger] a.differs_first_at(b, k),
    decreases n,
{
    if n > 0 {
        lemma_first_difference_exists(a, b, n - 1);
        if a.agrees_up_to(b, n - 1) {
            if a.bytes[n - 1] != b.bytes[n - 1] {
                assert(a.differs_first_at(b, n - 1));
            }
        }
    }
}

/// No key precedes itself.
pub proof fn lemma_precedes_irreflexive(a: Pubkey)
    ensures
        !a.precedes(a),
{
}

/// The order is transitive.
pub proof fn lemma_precedes_transitive(a: Pubkey, b: Pubkey, c: Pubkey)
    requires
        a.precedes(b),
        b.precedes(c),
    ensures
        a.precedes(c),
{
    let i = choose|k: int| #[trigger] a.differs_first_at(b, k) && a.bytes[k] < b.bytes[k];
    let j = choose|k: int| #[trigger] b.differs_first_at(c, k) && b.bytes[k] < c.bytes[k];
    let m = if i <= j { i } else { j };
    assert(a.differs_first_at(c, m));
}

/// Of two different keys exactly one precedes the other.
pub proof fn lemma_precedes_total(a: Pubkey, b: Pubkey)
    ensures
        a == b || a.precedes(b) || b.precedes(a),
        !(a.precedes(b) && b.precedes(a)),
        a.precedes(b) ==> a != b,
{
    lemma_first_difference_exists(a, b, 32);
    if a.agrees_up_to(b, 32) {
        lemma_agreeing_keys_equal(a, b);
    } else {
        let k = choose|k: int| 0 <= k < 32 && #[trigger] a.differs_first_at(b, k);
        lemma_first_difference_unique(a, b, k);
        lemma_first_difference_unique(b, a, k);
    }
    if a.precedes(b) && b.precedes(a) {
        let i = choose|k: int| #[trigger] a.differs_first_at(b, k) && a.bytes[k] < b.bytes[k];
        lemma_first_difference_unique(a, b, i);
        lemma_first_difference_unique(b, a, i);
    }
}

} // verus!

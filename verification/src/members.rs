//! The member registry: the group's identities, kept as a strictly
//! increasing list so that every identity appears exactly once.

use vstd::prelude::*;
use crate::pubkey::{Pubkey, lemma_precedes_total, lemma_precedes_transitive};

verus! {

/// Every entry precedes all the entries after it.
pub open spec fn strictly_increasing(s: Seq<Pubkey>) -> bool {
    forall|i: int, j: int| 0 <= i < j < s.len() ==> (#[trigger] s[i]).precedes(#[trigger] s[j])
}

/// A strictly increasing list holds no identity twice.
pub proof fn lemma_strictly_increasing_no_duplicates(s: Seq<Pubkey>)
    requires
        strictly_increasing(s),
    ensures
        s.no_duplicates(),
        s.to_set().len() == s.len(),
{
    assert forall|i: int, j: int| 0 <= i < s.len() && 0 <= j < s.len() && i != j implies s[i]
        != s[j] by {
        lemma_precedes_total(s[i], s[j]);
    }
    s.unique_seq_to_set();
}

/// Whether `key` is one of `list`.
pub fn contains_key(list: &Vec<Pubkey>, key: &Pubkey) -> (found: bool)
    ensures
        found == list@.contains(*key),
{
    let mut i: usize = 0;
    while i < list.len()
        invariant
            i <= list.len(),
            forall|j: int| 0 <= j < i ==> list@[j] != *key,
        decreases list.len() - i,
    {
        if list[i] == *key {
            return true;
        }
        i += 1;
    }
    false
}

/// Whether the entry at `at` occurs at an earlier position too.
fn occurs_before(list: &Vec<Pubkey>, at: usize) -> (found: bool)
    requires
        at < list.len(),
    ensures
        found == list@.take(at as int).contains(list@[at as int]),
{
    let ghost earlier = list@.take(at as int);
    let mut i: usize = 0;
    while i < at
        invariant
            i <= at < list.len(),
            earlier == list@.take(at as int),
            forall|j: int| 0 <= j < i ==> earlier[j] != list@[at as int],
        decreases at - i,
    {
        if list[i] == list[at] {
            assert(earlier[i as int] == list@[at as int]);
            return true;
        }
        i += 1;
    }
    false
}

/// The number of different identities in `list`, however often each occurs.
pub fn count_distinct(list: &Vec<Pubkey>) -> (count: usize)
    ensures
        count == list@.to_set().len(),
{
    let mut count: usize = 0;
    let mut i: usize = 0;
    proof {
        list@.take(0).lemma_cardinality_of_empty_set_is_0();
    }
    while i < list.len()
        invariant
            i <= list.len(),
            count <= i,
            count == list@.take(i as int).to_set().len(),
        decreases list.len() - i,
    {
        let ghost seen = list@.take(i as int);
        let repeated = occurs_before(list, i);
        proof {
            assert(list@.take(i + 1) == seen.push(list@[i as int]));
            seen.lemma_push_to_set_commute(list@[i as int]);
            vstd::seq_lib::seq_to_set_is_finite(seen);
        }
        if !repeated {
            count += 1;
        }
        i += 1;
    }
    assert(list@.take(i as int) == list@);
    count
}

/// Puts `key` at its place in a strictly increasing list, unless the list
/// holds it already.
fn insert_member(list: &mut Vec<Pubkey>, key: Pubkey)
    requires
        strictly_increasing(old(list)@),
    ensures
        strictly_increasing(final(list)@),
        forall|x: Pubkey| final(list)@.contains(x) <==> (old(list)@.contains(x) || x == key),
{
    let mut at: usize = 0;
    while at < list.len() && list[at].lt(&key)
        invariant
            at <= list.len(),
            *list == *old(list),
            forall|j: int| 0 <= j < at ==> (#[trigger] list@[j]).precedes(key),
        decreases list.len() - at,
    {
        at += 1;
    }
    if at < list.len() && list[at] == key {
        return;
    }
    let ghost before = list@;
    list.insert(at, key);
    proof {
        let after = list@;
        before.insert_ensures(at as int, key);
        if at < before.len() {
            // The entry at `at` neither precedes `key` nor equals it.
            lemma_precedes_total(before[at as int], key);
        }
        assert forall|i: int, j: int| 0 <= i < j < after.len() implies (#[trigger] after[i]).precedes(
            #[trigger] after[j],
        ) by {
            if i == at && j > at + 1 {
                lemma_precedes_transitive(key, before[at as int], before[j - 1]);
            }
        }
        assert forall|x: Pubkey| after.contains(x) <==> (before.contains(x) || x == key) by {
            if before.contains(x) {
                let i = choose|i: int| 0 <= i < before.len() && before[i] == x;
                assert(after[if i < at { i } else { i + 1 }] == x);
            }
            if x == key {
                assert(after[at as int] == x);
            }
        }
    }
}

/// Sorts a submitted member list and drops the repeated identities.
///
/// The result is the one strictly increasing list that holds exactly the
/// identities of `members` (see `lemma_strictly_increasing_unique`).
pub fn normalize_members(members: Vec<Pubkey>) -> (sorted: Vec<Pubkey>)
    ensures
        strictly_increasing(sorted@),
        sorted@.to_set() == members@.to_set(),
        sorted@.len() == members@.to_set().len(),
{
    let mut sorted: Vec<Pubkey> = Vec::new();
    let mut i: usize = 0;
    while i < members.len()
        invariant
            i <= members.len(),
            strictly_increasing(sorted@),
            forall|x: Pubkey| sorted@.contains(x) <==> members@.take(i as int).contains(x),
        decreases members.len() - i,
    {
        let ghost seen = members@.take(i as int);
        insert_member(&mut sorted, members[i]);
        proof {
            let next = members@.take(i + 1);
            assert(next == seen.push(members@[i as int]));
            assert forall|x: Pubkey| sorted@.contains(x) <==> next.contains(x) by {
                vstd::seq_lib::lemma_seq_contains_after_push(seen, members@[i as int], x);
            }
        }
        i += 1;
    }
    proof {
        assert(members@.take(i as int) == members@);
        assert(sorted@.to_set() =~= members@.to_set());
        lemma_strictly_increasing_no_duplicates(sorted@);
    }
    sorted
}

/// A set of identities has at most one strictly increasing listing.
pub proof fn lemma_strictly_increasing_unique(a: Seq<Pubkey>, b: Seq<Pubkey>)
    requires
        strictly_increasing(a),
        strictly_increasing(b),
        a.to_set() == b.to_set(),
    ensures
        a == b,
    decreases a.len(),
{
    lemma_strictly_increasing_no_duplicates(a);
    lemma_strictly_increasing_no_duplicates(b);
    if a.len() > 0 {
        // The last entry of each list is the greatest identity of the set,
        // so the two lists end alike.
        let x = a.last();
        let y = b.last();
        assert(a.to_set().contains(x));
        assert(b.to_set().contains(y));
        let ix = choose|i: int| 0 <= i < b.len() && b[i] == x;
        let iy = choose|i: int| 0 <= i < a.len() && a[i] == y;
        lemma_precedes_total(x, y);
        assert(x == y);
        // Without their last entries they hold the same identities still.
        let a0 = a.drop_last();
        let b0 = b.drop_last();
        assert(strictly_increasing(a0));
        assert(strictly_increasing(b0));
        assert(a0.to_set() =~= b0.to_set()) by {
            assert forall|z: Pubkey| a0.contains(z) <==> b0.contains(z) by {
                if a0.contains(z) {
                    let i = choose|i: int| 0 <= i < a0.len() && a0[i] == z;
                    lemma_precedes_total(z, x);
                    assert(a.to_set().contains(z));
                    let k = choose|k: int| 0 <= k < b.len() && b[k] == z;
                    assert(b0[k] == z);
                }
                if b0.contains(z) {
                    let i = choose|i: int| 0 <= i < b0.len() && b0[i] == z;
                    lemma_precedes_total(z, y);
                    assert(b.to_set().contains(z));
                    let k = choose|k: int| 0 <= k < a.len() && a[k] == z;
                    assert(a0[k] == z);
                }
            }
        }
        lemma_strictly_increasing_unique(a0, b0);
        assert(a =~= a0.push(x));
        assert(b =~= b0.push(y));
    } else {
        assert(a =~= b);
    }
}

} // verus!

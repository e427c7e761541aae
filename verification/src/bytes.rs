//! Helpers on byte strings and on lists of addresses.

use vstd::prelude::*;

verus! {

/// Position of the first entry of `addrs`, at or after `from`, that equals
/// `a`; `-1` where there is none.
pub open spec fn index_of_from(addrs: Seq<Seq<u8>>, a: Seq<u8>, from: int) -> int
    decreases addrs.len() - from,
{
    if from < 0 || from >= addrs.len() {
        -1
    } else if addrs[from] == a {
        from
    } else {
        index_of_from(addrs, a, from + 1)
    }
}

/// Position of the first entry of `addrs` that equals `a`; `-1` where there
/// is none.
pub open spec fn index_of(addrs: Seq<Seq<u8>>, a: Seq<u8>) -> int {
    index_of_from(addrs, a, 0)
}

/// `index_of_from` finds the first match at or after `from`, and says `-1`
/// only where no entry from there on matches.
pub proof fn lemma_index_of_from(addrs: Seq<Seq<u8>>, a: Seq<u8>, from: int)
    requires
        0 <= from <= addrs.len(),
    ensures
        ({
            let r = index_of_from(addrs, a, from);
            &&& r == -1 || from <= r < addrs.len()
            &&& r >= 0 ==> addrs[r] == a
            &&& forall|j: int| from <= j < (if r >= 0 { r } else { addrs.len() as int }) ==> addrs[j] != a
        }),
    decreases addrs.len() - from,
{
    if from < addrs.len() && addrs[from] != a {
        lemma_index_of_from(addrs, a, from + 1);
    }
}

/// `index_of` finds the first match, and says `-1` only where no entry
/// matches.
pub proof fn lemma_index_of(addrs: Seq<Seq<u8>>, a: Seq<u8>)
    ensures
        ({
            let r = index_of(addrs, a);
            &&& r == -1 || 0 <= r < addrs.len()
            &&& r >= 0 ==> addrs[r] == a
            &&& forall|j: int| 0 <= j < (if r >= 0 { r } else { addrs.len() as int }) ==> addrs[j] != a
        }),
{
    lemma_index_of_from(addrs, a, 0);
}

/// Tells whether two byte strings hold the same bytes.
pub fn bytes_eq(a: &Vec<u8>, b: &Vec<u8>) -> (same: bool)
    ensures
        same == (a@ == b@),
{
    if a.len() != b.len() {
        return false;
    }
    let mut i: usize = 0;
    while i < a.len()
        invariant
            a.len() == b.len(),
            i <= a.len(),
            forall|j: int| 0 <= j < i ==> a@[j] == b@[j],
        decreases a.len() - i,
    {
        if a[i] != b[i] {
            return false;
        }
        i += 1;
    }
    assert(a@ =~= b@);
    true
}

/// A fresh byte string holding the bytes of `a`.
pub fn bytes_clone(a: &Vec<u8>) -> (copy: Vec<u8>)
    ensures
        copy@ == a@,
{
    let mut out: Vec<u8> = Vec::new();
    let mut i: usize = 0;
    while i < a.len()
        invariant
            i <= a.len(),
            out@ == a@.take(i as int),
        decreases a.len() - i,
    {
        out.push(a[i]);
        assert(a@.take(i as int).push(a@[i as int]) =~= a@.take(i + 1));
        i += 1;
    }
    assert(a@.take(a.len() as int) =~= a@);
    out
}

} // verus!

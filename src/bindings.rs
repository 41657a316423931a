//! Pointer bindings and the table that holds them. The table is a sequence in
//! which a later entry for a name hides the earlier ones.
use vstd::prelude::*;
use crate::ast::RawPointer;
use crate::permissions::PermissionSet;

verus! {

/// One raw-pointer-typed name in scope, with the accesses observed on it.
#[derive(Clone, Debug)]
pub struct PointerBinding {
    pub name: String,
    pub pointer: RawPointer,
    pub accesses: PermissionSet,
}

/// The index of the last entry named `k`, or -1 when there is none.
pub open spec fn last_index(s: Seq<PointerBinding>, k: Seq<char>) -> int
    decreases s.len(),
{
    if s.len() == 0 {
        -1
    } else if s.last().name@ == k {
        s.len() - 1
    } else {
        last_index(s.drop_last(), k)
    }
}

/// The binding that the name `k` denotes in the table `s`.
pub open spec fn lookup(s: Seq<PointerBinding>, k: Seq<char>) -> Option<PointerBinding> {
    let i = last_index(s, k);
    if i >= 0 {
        Some(s[i])
    } else {
        None
    }
}

/// `last_index` is the last position that holds `k`.
pub proof fn lemma_last_index(s: Seq<PointerBinding>, k: Seq<char>)
    ensures
        -1 <= last_index(s, k) < s.len(),
        last_index(s, k) >= 0 ==> s[last_index(s, k)].name@ == k,
        forall|j: int| last_index(s, k) < j < s.len() ==> s[j].name@ != k,
    decreases s.len(),
{
    if s.len() > 0 && s.last().name@ != k {
        let d = s.drop_last();
        lemma_last_index(d, k);
        assert(forall|j: int| 0 <= j < d.len() ==> d[j] == s[j]);
    }
}

/// Any position that holds `k` with no later one is `last_index`.
pub proof fn lemma_last_index_unique(s: Seq<PointerBinding>, k: Seq<char>, i: int)
    requires
        -1 <= i < s.len(),
        i >= 0 ==> s[i].name@ == k,
        forall|j: int| i < j < s.len() ==> s[j].name@ != k,
    ensures
        last_index(s, k) == i,
{
    lemma_last_index(s, k);
}

/// Lookup in a concatenation: an entry of the second part hides the first.
pub proof fn lemma_lookup_append(a: Seq<PointerBinding>, b: Seq<PointerBinding>, k: Seq<char>)
    ensures
        lookup(a + b, k) == (if lookup(b, k) is Some { lookup(b, k) } else { lookup(a, k) }),
{
    lemma_last_index(a, k);
    lemma_last_index(b, k);
    let ib = last_index(b, k);
    if ib >= 0 {
        lemma_last_index_unique(a + b, k, a.len() + ib);
    } else {
        let ia = last_index(a, k);
        lemma_last_index_unique(a + b, k, ia);
    }
}

/// Replacing the entry that a name denotes by one of the same name changes
/// what that name denotes and nothing else.
pub proof fn lemma_lookup_update(
    s: Seq<PointerBinding>,
    n: Seq<char>,
    b: PointerBinding,
    k: Seq<char>,
)
    requires
        last_index(s, n) >= 0,
        b.name@ == n,
    ensures
        lookup(s.update(last_index(s, n), b), k) == (if k == n { Some(b) } else { lookup(s, k) }),
{
    let i = last_index(s, n);
    let t = s.update(i, b);
    lemma_last_index(s, n);
    lemma_last_index(s, k);
    assert(forall|j: int| 0 <= j < s.len() ==> t[j].name@ == s[j].name@);
    if k == n {
        lemma_last_index_unique(t, k, i);
    } else {
        lemma_last_index_unique(t, k, last_index(s, k));
    }
}

/// The position of the entry that `k` denotes in `s`, if any.
pub fn find_last(s: &Vec<PointerBinding>, k: &String) -> (r: Option<usize>)
    ensures
        match r {
            Some(i) => i < s@.len() && last_index(s@, k@) == i as int,
            None => last_index(s@, k@) == -1,
        },
{
    proof {
        lemma_last_index(s@, k@);
    }
    let mut i: usize = s.len();
    while i > 0
        invariant
            i <= s@.len(),
            forall|j: int| i <= j < s@.len() ==> s@[j].name@ != k@,
        decreases i,
    {
        if s[i - 1].name.eq(k) {
            proof {
                lemma_last_index_unique(s@, k@, i - 1);
            }
            return Some(i - 1);
        }
        i = i - 1;
    }
    proof {
        lemma_last_index_unique(s@, k@, -1);
    }
    None
}

} // verus!

use vstd::prelude::*;

verus! {

/// A request for the queues of one queue family, as handed to logical device creation.
///
/// Priorities are in thousandths: `1000` stands for the highest priority, `1.0`.
pub struct QueueFamily {
    pub index: u32,
    pub priorities: Vec<u16>,
}

/// The family indices that a list of requests names, in order.
pub open spec fn family_indices(s: Seq<QueueFamily>) -> Seq<u32> {
    s.map_values(|q: QueueFamily| q.index)
}

/// The requests with every request dropped whose family an earlier request names.
///
/// The first request of each family stays, with its priorities, in its place.
pub open spec fn merged(s: Seq<QueueFamily>) -> Seq<QueueFamily>
    decreases s.len(),
{
    if s.len() == 0 {
        s
    } else {
        let m = merged(s.drop_last());
        if family_indices(m).contains(s.last().index) {
            m
        } else {
            m.push(s.last())
        }
    }
}

/// No two requests name the same family.
pub open spec fn unique_families(s: Seq<QueueFamily>) -> bool {
    forall|i: int, j: int| 0 <= i < j < s.len() ==> s[i].index != s[j].index
}

/// A list in which no family is named twice is left as it is by merging.
pub proof fn lemma_merged_unique_is_identity(s: Seq<QueueFamily>)
    requires
        unique_families(s),
    ensures
        merged(s) == s,
    decreases s.len(),
{
    if s.len() > 0 {
        let d = s.drop_last();
        assert(unique_families(d));
        lemma_merged_unique_is_identity(d);
        if family_indices(d).contains(s.last().index) {
            let j = choose|j: int| 0 <= j < family_indices(d).len() && family_indices(d)[j] == s.last().index;
            assert(s[j].index == s[s.len() - 1].index);
        }
        assert(d.push(s.last()) == s);
    }
}

/// Merged requests name each family once, they name the same families as the
/// requests they came from, and merging them again changes nothing.
pub proof fn lemma_merge_queues_unique(s: Seq<QueueFamily>)
    ensures
        unique_families(merged(s)),
        family_indices(merged(s)).to_set() == family_indices(s).to_set(),
        merged(merged(s)) == merged(s),
    decreases s.len(),
{
    if s.len() > 0 {
        let d = s.drop_last();
        lemma_merge_queues_unique(d);
        let m = merged(d);
        let x = s.last().index;
        if !family_indices(m).contains(x) {
            assert forall|i: int, j: int| 0 <= i < j < m.push(s.last()).len() implies
                m.push(s.last())[i].index != m.push(s.last())[j].index by {
                if j == m.len() {
                    assert(family_indices(m)[i] == m[i].index);
                }
            }
            assert(family_indices(m.push(s.last())) == family_indices(m).push(x));
        }
        assert(family_indices(s) == family_indices(d).push(x));
        family_indices(d).lemma_push_to_set_commute(x);
        assert(family_indices(s).to_set() == family_indices(d).to_set().insert(x));
        if family_indices(m).contains(x) {
            assert(family_indices(d).to_set().contains(x));
            assert(family_indices(d).to_set().insert(x) == family_indices(d).to_set());
        } else {
            family_indices(m).lemma_push_to_set_commute(x);
        }
    }
    lemma_merged_unique_is_identity(merged(s));
}

/// Whether one of the requests in `v` names the family `index`.
pub fn names_family(v: &Vec<QueueFamily>, index: u32) -> (r: bool)
    ensures
        r == family_indices(v@).contains(index),
{
    let mut i: usize = 0;
    while i < v.len()
        invariant
            i <= v.len(),
            forall|j: int| 0 <= j < i ==> v@[j].index != index,
        decreases v.len() - i,
    {
        if v[i].index == index {
            assert(family_indices(v@)[i as int] == index);
            return true;
        }
        i += 1;
    }
    proof {
        if family_indices(v@).contains(index) {
            let j = choose|j: int| 0 <= j < family_indices(v@).len() && family_indices(v@)[j] == index;
            assert(v@[j].index == index);
        }
    }
    false
}

impl QueueFamily {
    /// Coalesces the requests that name the same family into one, so that no family
    /// is created twice. The first request of each family is kept, in its place.
    pub fn merge_queues(a: &mut Vec<QueueFamily>)
        ensures
            final(a)@ == merged(old(a)@),
    {
        let ghost orig = a@;
        let ghost mut k: int = 0;
        let mut out: Vec<QueueFamily> = Vec::new();
        while a.len() > 0
            invariant
                0 <= k <= orig.len(),
                a@ == orig.skip(k),
                out@ == merged(orig.take(k)),
            decreases a.len(),
        {
            let q = a.remove(0);
            proof {
                assert(orig.take(k + 1).drop_last() == orig.take(k));
                assert(orig.take(k + 1).last() == orig[k]);
                assert(a@ == orig.skip(k + 1));
                k = k + 1;
            }
            if !names_family(&out, q.index) {
                out.push(q);
            }
        }
        proof {
            assert(orig.take(k) == orig);
        }
        *a = out;
    }
}

} // verus!

//! Descending insertion sort for funnel stages.
//!
//! The funnel chart shows its stages ordered by value, largest first.
//! The order is fixed by the spec-level insertion sort [`sort_desc`]:
//! the executable sort is proved to return exactly that sequence, which
//! keeps the builder deterministic even between stages of equal value.

use vstd::multiset::Multiset;
use vstd::prelude::*;

use crate::chart::Stage;

verus! {

broadcast use vstd::seq_lib::group_to_multiset_ensures, vstd::multiset::group_multiset_axioms;

/// Stages in non-increasing order of value.
pub open spec fn sorted_desc(s: Seq<Stage>) -> bool {
    forall|i: int, j: int|
        #![trigger s[i], s[j]]
        0 <= i <= j < s.len() ==> s[i].value >= s[j].value
}

/// Place a stage behind every stage whose value is at least as large.
pub open spec fn insert_desc(x: Stage, s: Seq<Stage>) -> Seq<Stage>
    decreases s.len(),
{
    if s.len() == 0 {
        seq![x]
    } else if s[0].value >= x.value {
        seq![s[0]] + insert_desc(x, s.drop_first())
    } else {
        seq![x] + s
    }
}

/// Insertion sort into non-increasing order of value. Stages of equal
/// value keep their relative input order.
pub open spec fn sort_desc(s: Seq<Stage>) -> Seq<Stage>
    decreases s.len(),
{
    if s.len() == 0 {
        Seq::empty()
    } else {
        insert_desc(s.last(), sort_desc(s.drop_last()))
    }
}

/// Inserting adds exactly the one stage: the result holds the stages of
/// the input plus the inserted one.
pub proof fn lemma_insert_desc_multiset(x: Stage, s: Seq<Stage>)
    ensures
        insert_desc(x, s).len() == s.len() + 1,
        insert_desc(x, s).to_multiset() =~= s.to_multiset().insert(x),
    decreases s.len(),
{
    if s.len() == 0 {
        assert(seq![x] =~= Seq::empty().push(x));
        assert(s.to_multiset() =~= Multiset::empty());
    } else if s[0].value >= x.value {
        let tail = s.drop_first();
        lemma_insert_desc_multiset(x, tail);
        vstd::seq_lib::lemma_multiset_commutative(seq![s[0]], insert_desc(x, tail));
        vstd::seq_lib::lemma_multiset_commutative(seq![s[0]], tail);
        assert(s =~= seq![s[0]] + tail);
    } else {
        vstd::seq_lib::lemma_multiset_commutative(seq![x], s);
        assert(seq![x] =~= Seq::empty().push(x));
    }
}

/// Inserting into a sorted sequence keeps it sorted.
pub proof fn lemma_insert_desc_sorted(x: Stage, s: Seq<Stage>)
    requires
        sorted_desc(s),
    ensures
        sorted_desc(insert_desc(x, s)),
    decreases s.len(),
{
    if s.len() == 0 {
    } else if s[0].value >= x.value {
        let tail = s.drop_first();
        assert(sorted_desc(tail));
        lemma_insert_desc_sorted(x, tail);
        lemma_insert_desc_multiset(x, tail);
        let it = insert_desc(x, tail);
        let r = seq![s[0]] + it;
        assert forall|j: int| 1 <= j < r.len() implies s[0].value >= r[j].value by {
            let e = it[j - 1];
            assert(it.contains(e));
            assert(it.to_multiset().count(e) > 0);
            if e == x {
            } else {
                assert(tail.to_multiset().count(e) > 0);
                assert(tail.contains(e));
                let k = choose|k: int| 0 <= k < tail.len() && tail[k] == e;
                assert(s[k + 1] == e);
            }
        }
        assert(sorted_desc(r));
    } else {
        let r = seq![x] + s;
        assert forall|i: int, j: int|
            #![trigger r[i], r[j]]
            0 <= i <= j < r.len() implies r[i].value >= r[j].value by {
            if i == 0 && j > 0 {
                assert(r[j] == s[j - 1]);
                assert(s[0].value >= s[j - 1].value);
            }
        }
    }
}

/// The sorted sequence holds exactly the input stages, in
/// non-increasing order of value.
pub proof fn lemma_sort_desc_permutes(s: Seq<Stage>)
    ensures
        sort_desc(s).len() == s.len(),
        sort_desc(s).to_multiset() =~= s.to_multiset(),
        sorted_desc(sort_desc(s)),
    decreases s.len(),
{
    if s.len() == 0 {
        assert(s.to_multiset() =~= Multiset::empty());
        assert(sort_desc(s).to_multiset() =~= Multiset::empty());
    } else {
        let head = s.drop_last();
        lemma_sort_desc_permutes(head);
        lemma_insert_desc_multiset(s.last(), sort_desc(head));
        lemma_insert_desc_sorted(s.last(), sort_desc(head));
        assert(s =~= head.push(s.last()));
        assert(s.to_multiset() =~= head.to_multiset().insert(s.last()));
    }
}

/// Where the first `j` stages have values at least `x.value` and the
/// stage at `j` (if any) has a smaller one, insertion lands exactly at
/// position `j`.
proof fn lemma_insert_desc_at(x: Stage, s: Seq<Stage>, j: int)
    requires
        0 <= j <= s.len(),
        forall|k: int| 0 <= k < j ==> (#[trigger] s[k]).value >= x.value,
        j == s.len() || s[j].value < x.value,
    ensures
        insert_desc(x, s) =~= s.insert(j, x),
    decreases j,
{
    if j == 0 {
        if s.len() == 0 {
            assert(insert_desc(x, s) =~= s.insert(0, x));
        } else {
            assert(s[0].value < x.value);
            assert(insert_desc(x, s) =~= s.insert(0, x));
        }
    } else {
        let tail = s.drop_first();
        assert(s[0].value >= x.value);
        assert forall|k: int| 0 <= k < j - 1 implies (#[trigger] tail[k]).value >= x.value by {
            assert(tail[k] == s[k + 1]);
        }
        lemma_insert_desc_at(x, tail, j - 1);
        assert(insert_desc(x, s) =~= seq![s[0]] + tail.insert(j - 1, x));
        assert(seq![s[0]] + tail.insert(j - 1, x) =~= s.insert(j, x));
    }
}

/// Insert one stage into a vector kept in non-increasing value order.
fn insert_stage_desc(v: &mut Vec<Stage>, x: Stage)
    ensures
        final(v)@ == insert_desc(x, old(v)@),
{
    let mut j: usize = 0;
    while j < v.len() && v[j].value >= x.value
        invariant
            j <= v@.len(),
            v@ == old(v)@,
            forall|k: int| 0 <= k < j ==> (#[trigger] v@[k]).value >= x.value,
        decreases v@.len() - j,
    {
        j = j + 1;
    }
    proof {
        lemma_insert_desc_at(x, v@, j as int);
    }
    v.insert(j, x);
}

/// Sort the given stages into non-increasing order of value.
pub fn sort_stages_desc(input: &Vec<Stage>) -> (r: Vec<Stage>)
    ensures
        r@ == sort_desc(input@),
{
    let mut out: Vec<Stage> = Vec::new();
    let mut i: usize = 0;
    while i < input.len()
        invariant
            i <= input@.len(),
            out@ == sort_desc(input@.take(i as int)),
        decreases input@.len() - i,
    {
        let x = input[i];
        insert_stage_desc(&mut out, x);
        proof {
            let t1 = input@.take(i + 1int);
            assert(t1.drop_last() =~= input@.take(i as int));
            assert(t1.last() == input@[i as int]);
        }
        i = i + 1;
    }
    proof {
        assert(input@.take(input@.len() as int) =~= input@);
    }
    out
}

} // verus!

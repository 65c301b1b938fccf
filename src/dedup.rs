use vstd::prelude::*;

verus! {

/// `s` with every element after its first occurrence removed.
pub open spec fn dedup_seq<A>(s: Seq<A>) -> Seq<A>
    decreases s.len(),
{
    if s.len() == 0 {
        s
    } else if s.drop_last().contains(s.last()) {
        dedup_seq(s.drop_last())
    } else {
        dedup_seq(s.drop_last()).push(s.last())
    }
}

proof fn lemma_push_contains<A>(p: Seq<A>, y: A, x: A)
    ensures
        p.push(y).contains(x) <==> (p.contains(x) || x == y),
{
    if p.push(y).contains(x) {
        let k = choose|k: int| 0 <= k < p.push(y).len() && p.push(y)[k] == x;
        if k < p.len() {
            assert(p[k] == x);
        }
    }
    if p.contains(x) {
        let k = choose|k: int| 0 <= k < p.len() && p[k] == x;
        assert(p.push(y)[k] == x);
    }
    if x == y {
        assert(p.push(y)[p.len() as int] == x);
    }
}

/// Law: deduplication keeps exactly the elements of its input.
pub proof fn lemma_dedup_same_elements<A>(s: Seq<A>)
    ensures
        forall|x: A| dedup_seq(s).contains(x) <==> s.contains(x),
    decreases s.len(),
{
    if s.len() > 0 {
        let p = s.drop_last();
        lemma_dedup_same_elements(p);
        assert(s =~= p.push(s.last()));
        assert forall|x: A| dedup_seq(s).contains(x) <==> s.contains(x) by {
            lemma_push_contains(p, s.last(), x);
            lemma_push_contains(dedup_seq(p), s.last(), x);
        }
    }
}

/// Law: deduplication leaves no element twice.
pub proof fn lemma_dedup_no_duplicates<A>(s: Seq<A>)
    ensures
        dedup_seq(s).no_duplicates(),
    decreases s.len(),
{
    if s.len() > 0 {
        let p = s.drop_last();
        lemma_dedup_no_duplicates(p);
        lemma_dedup_same_elements(p);
        let d = dedup_seq(p);
        if !p.contains(s.last()) {
            assert forall|i: int, j: int|
                0 <= i < dedup_seq(s).len() && 0 <= j < dedup_seq(s).len() && i != j implies
                dedup_seq(s)[i] != dedup_seq(s)[j] by {
                if i < d.len() && j < d.len() {
                } else if i < d.len() {
                    assert(d.contains(dedup_seq(s)[i]));
                } else {
                    assert(d.contains(dedup_seq(s)[j]));
                }
            }
        }
    }
}

/// Law: deduplication keeps the order of first occurrences: an element
/// placed before another occurs in `s` before every occurrence of the other.
pub proof fn lemma_dedup_first_occurrence_order<A>(s: Seq<A>)
    ensures
        forall|i: int, j: int, q: int|
            #![trigger dedup_seq(s)[i], dedup_seq(s)[j], s[q]]
            0 <= i < j < dedup_seq(s).len() && 0 <= q < s.len() && s[q] == dedup_seq(s)[j]
                ==> s.subrange(0, q).contains(dedup_seq(s)[i]),
    decreases s.len(),
{
    if s.len() > 0 {
        let p = s.drop_last();
        let d = dedup_seq(p);
        lemma_dedup_first_occurrence_order(p);
        lemma_dedup_same_elements(p);
        assert forall|i: int, j: int, q: int|
            #![trigger dedup_seq(s)[i], dedup_seq(s)[j], s[q]]
            0 <= i < j < dedup_seq(s).len() && 0 <= q < s.len() && s[q] == dedup_seq(s)[j]
            implies s.subrange(0, q).contains(dedup_seq(s)[i]) by {
            let fresh = !p.contains(s.last());
            if fresh {
                assert(dedup_seq(s) == d.push(s.last()));
            } else {
                assert(dedup_seq(s) == d);
            }
            assert(i < d.len());
            let x = d[i];
            assert(dedup_seq(s)[i] == x);
            assert(d.contains(x));
            assert(p.contains(x));
            let k = choose|k: int| 0 <= k < p.len() && p[k] == x;
            if q < p.len() {
                assert(s.subrange(0, q) =~= p.subrange(0, q));
                assert(p[q] == s[q]);
                if j < d.len() {
                    assert(d[j] == dedup_seq(s)[j]);
                    assert(p.subrange(0, q).contains(d[i]));
                } else {
                    assert(dedup_seq(s)[j] == s.last());
                    assert(p.contains(s.last()));
                }
            } else {
                assert(s.subrange(0, q) =~= p);
                assert(s.subrange(0, q)[k] == x);
            }
        }
    }
}

/// Law: renaming elements injectively commutes with deduplication.
pub proof fn lemma_dedup_map_injective<A, B>(s: Seq<A>, f: spec_fn(A) -> B)
    requires
        forall|a: A, b: A| #[trigger] f(a) == #[trigger] f(b) ==> a == b,
    ensures
        dedup_seq(s.map_values(f)) == dedup_seq(s).map_values(f),
    decreases s.len(),
{
    if s.len() > 0 {
        let p = s.drop_last();
        lemma_dedup_map_injective(p, f);
        assert(s.map_values(f).drop_last() =~= p.map_values(f));
        assert(s.map_values(f).last() == f(s.last()));
        if p.contains(s.last()) {
            let k = choose|k: int| 0 <= k < p.len() && p[k] == s.last();
            assert(p.map_values(f)[k] == f(s.last()));
        } else if p.map_values(f).contains(f(s.last())) {
            let k = choose|k: int| 0 <= k < p.len() && p.map_values(f)[k] == f(s.last());
            assert(f(p[k]) == f(s.last()));
        }
        assert(dedup_seq(s).map_values(f) =~= dedup_seq(s.map_values(f)));
    }
}

} // verus!

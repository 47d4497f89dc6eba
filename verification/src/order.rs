//! The order of strings (`Ord` on `String`: lexicographic by character) and a
//! stable sort of indices by a pair of strings.
use vstd::prelude::*;

verus! {

/// `a` sorts strictly before `b`: at the first position where they differ `a`
/// has the smaller character, or `a` is a proper prefix of `b`.
pub open spec fn lex_lt(a: Seq<char>, b: Seq<char>) -> bool
    decreases a.len(),
{
    if b.len() == 0 {
        false
    } else if a.len() == 0 {
        true
    } else if a[0] != b[0] {
        (a[0] as int) < (b[0] as int)
    } else {
        lex_lt(a.skip(1), b.skip(1))
    }
}

/// No string sorts before itself.
pub proof fn lemma_lex_irreflexive(a: Seq<char>)
    ensures
        !lex_lt(a, a),
    decreases a.len(),
{
    if a.len() > 0 {
        lemma_lex_irreflexive(a.skip(1));
    }
}

/// Of two different strings, one sorts before the other.
pub proof fn lemma_lex_total(a: Seq<char>, b: Seq<char>)
    ensures
        a == b || lex_lt(a, b) || lex_lt(b, a),
    decreases a.len(),
{
    if a.len() > 0 && b.len() > 0 && a[0] == b[0] {
        lemma_lex_total(a.skip(1), b.skip(1));
        if a.skip(1) == b.skip(1) {
            assert(a =~= seq![a[0]] + a.skip(1));
            assert(b =~= seq![b[0]] + b.skip(1));
        }
    } else if a.len() == 0 && b.len() == 0 {
        assert(a =~= b);
    } else if a.len() > 0 && b.len() > 0 {
        assert((a[0] as int) != (b[0] as int));
    }
}

/// Two strings never sort before each other.
pub proof fn lemma_lex_asymmetric(a: Seq<char>, b: Seq<char>)
    ensures
        !(lex_lt(a, b) && lex_lt(b, a)),
    decreases a.len(),
{
    if a.len() > 0 && b.len() > 0 && a[0] == b[0] {
        lemma_lex_asymmetric(a.skip(1), b.skip(1));
    }
}

/// The order of strings is transitive.
pub proof fn lemma_lex_transitive(a: Seq<char>, b: Seq<char>, c: Seq<char>)
    requires
        lex_lt(a, b),
        lex_lt(b, c),
    ensures
        lex_lt(a, c),
    decreases a.len(),
{
    if a.len() > 0 && b.len() > 0 && c.len() > 0 && a[0] == b[0] && b[0] == c[0] {
        lemma_lex_transitive(a.skip(1), b.skip(1), c.skip(1));
    }
}

/// Whether `a` sorts strictly before `b` as a pair: by the first string, then
/// by the second.
pub open spec fn pair_lt(a: (Seq<char>, Seq<char>), b: (Seq<char>, Seq<char>)) -> bool {
    lex_lt(a.0, b.0) || (a.0 == b.0 && lex_lt(a.1, b.1))
}

/// Of two different pairs, one sorts before the other; never both.
pub proof fn lemma_pair_total(a: (Seq<char>, Seq<char>), b: (Seq<char>, Seq<char>))
    ensures
        a == b || pair_lt(a, b) || pair_lt(b, a),
        !(pair_lt(a, b) && pair_lt(b, a)),
        !pair_lt(a, a),
{
    lemma_lex_total(a.0, b.0);
    lemma_lex_total(a.1, b.1);
    lemma_lex_asymmetric(a.0, b.0);
    lemma_lex_asymmetric(a.1, b.1);
    lemma_lex_irreflexive(a.0);
    lemma_lex_irreflexive(a.1);
}

/// The order of pairs is transitive.
pub proof fn lemma_pair_transitive(a: (Seq<char>, Seq<char>), b: (Seq<char>, Seq<char>), c: (Seq<char>, Seq<char>))
    requires
        pair_lt(a, b),
        pair_lt(b, c),
    ensures
        pair_lt(a, c),
{
    if lex_lt(a.0, b.0) && lex_lt(b.0, c.0) {
        lemma_lex_transitive(a.0, b.0, c.0);
    } else if lex_lt(a.1, b.1) && lex_lt(b.1, c.1) {
        lemma_lex_transitive(a.1, b.1, c.1);
    }
}

/// Index `i` comes before index `j` in a stable sort by `keys`: its key sorts
/// first, or the keys are equal and `i` is the earlier index.
pub open spec fn stable_before(keys: Seq<(Seq<char>, Seq<char>)>, i: int, j: int) -> bool {
    pair_lt(keys[i], keys[j]) || (keys[i] == keys[j] && i < j)
}

/// `order` lists every index of `keys` once, in the order of a stable sort by key.
pub open spec fn is_stable_sort(keys: Seq<(Seq<char>, Seq<char>)>, order: Seq<usize>) -> bool {
    &&& order.len() == keys.len()
    &&& forall|p: int| 0 <= p < order.len() ==> #[trigger] order[p] < keys.len()
    &&& forall|p: int, q: int| 0 <= p < q < order.len() ==> stable_before(keys, #[trigger] order[p] as int, #[trigger] order[q] as int)
}

/// Whether `a` sorts strictly before `b`.
pub fn lex_less(a: &[char], b: &[char]) -> (r: bool)
    ensures
        r == lex_lt(a@, b@),
{
    let mut i: usize = 0;
    assert(a@.skip(0) =~= a@ && b@.skip(0) =~= b@);
    while i < a.len() && i < b.len() && a[i] == b[i]
        invariant
            i <= a@.len(),
            i <= b@.len(),
            lex_lt(a@, b@) == lex_lt(a@.skip(i as int), b@.skip(i as int)),
        decreases a@.len() - i,
    {
        assert(a@.skip(i as int).skip(1) =~= a@.skip(i + 1));
        assert(b@.skip(i as int).skip(1) =~= b@.skip(i + 1));
        i = i + 1;
    }
    if i == b.len() {
        false
    } else if i == a.len() {
        true
    } else {
        a[i] < b[i]
    }
}

fn pair_less(a: &(Vec<char>, Vec<char>), b: &(Vec<char>, Vec<char>)) -> (r: bool)
    ensures
        r == pair_lt((a.0@, a.1@), (b.0@, b.1@)),
{
    if lex_less(a.0.as_slice(), b.0.as_slice()) {
        true
    } else if crate::text::chars_eq(a.0.as_slice(), b.0.as_slice()) {
        lex_less(a.1.as_slice(), b.1.as_slice())
    } else {
        false
    }
}

/// The model of a list of key pairs.
pub open spec fn keys_view(keys: Seq<(Vec<char>, Vec<char>)>) -> Seq<(Seq<char>, Seq<char>)> {
    keys.map_values(|k: (Vec<char>, Vec<char>)| (k.0@, k.1@))
}

/// The indices of `keys` in the order of a stable sort by key.
pub fn stable_sort_indices(keys: &Vec<(Vec<char>, Vec<char>)>) -> (r: Vec<usize>)
    ensures
        is_stable_sort(keys_view(keys@), r@),
{
    let ghost kv = keys_view(keys@);
    let n = keys.len();
    let mut order: Vec<usize> = Vec::new();
    let mut i: usize = 0;
    while i < n
        invariant
            n == keys@.len(),
            kv == keys_view(keys@),
            kv.len() == n,
            i <= n,
            order@.len() == i,
            forall|p: int| 0 <= p < order@.len() ==> #[trigger] order@[p] < i,
            forall|p: int, q: int|
                0 <= p < q < order@.len() ==> stable_before(kv, #[trigger] order@[p] as int, #[trigger] order@[q] as int),
        decreases n - i,
    {
        let mut pos: usize = order.len();
        while pos > 0 && pair_less(&keys[i], &keys[order[pos - 1]])
            invariant
                n == keys@.len(),
                kv == keys_view(keys@),
                i < n,
                pos <= order@.len(),
                order@.len() == i,
                forall|p: int| 0 <= p < order@.len() ==> #[trigger] order@[p] < i,
                forall|q: int| pos <= q < order@.len() ==> pair_lt(kv[i as int], kv[#[trigger] order@[q] as int]),
            decreases pos,
        {
            assert(kv[i as int] == (keys@[i as int].0@, keys@[i as int].1@));
            assert(kv[order@[pos - 1] as int] == (keys@[order@[pos - 1] as int].0@, keys@[order@[pos - 1] as int].1@));
            pos = pos - 1;
        }
        proof {
            if pos > 0 {
                assert(kv[i as int] == (keys@[i as int].0@, keys@[i as int].1@));
                assert(kv[order@[pos - 1] as int] == (keys@[order@[pos - 1] as int].0@, keys@[order@[pos - 1] as int].1@));
                assert(!pair_lt(kv[i as int], kv[order@[pos - 1] as int]));
            }
        }
        let ghost old_order = order@;
        order.insert(pos, i);
        proof {
            assert forall|p: int| 0 <= p < order@.len() implies #[trigger] order@[p] < i + 1 by {
                if p < pos {
                    assert(order@[p] == old_order[p]);
                } else if p > pos {
                    assert(order@[p] == old_order[p - 1]);
                }
            }
            assert forall|p: int, q: int| 0 <= p < q < order@.len() implies stable_before(
                kv,
                #[trigger] order@[p] as int,
                #[trigger] order@[q] as int,
            ) by {
                let a = order@[p] as int;
                let b = order@[q] as int;
                if q < pos {
                    assert(a == old_order[p] && b == old_order[q]);
                } else if p > pos {
                    assert(a == old_order[p - 1] && b == old_order[q - 1]);
                } else if q == pos {
                    // a sorts at or before the new key, and has a smaller index.
                    assert(a == old_order[p]);
                    assert(b == i);
                    let last = old_order[pos - 1] as int;
                    lemma_pair_total(kv[i as int], kv[last]);
                    if p < pos - 1 {
                        assert(stable_before(kv, a, last));
                        if pair_lt(kv[a], kv[last]) && pair_lt(kv[last], kv[i as int]) {
                            lemma_pair_transitive(kv[a], kv[last], kv[i as int]);
                        }
                    }
                } else if p == pos {
                    assert(a == i);
                    assert(b == old_order[q - 1]);
                    assert(pair_lt(kv[i as int], kv[b]));
                } else {
                    assert(p < pos && q > pos);
                    assert(a == old_order[p] && b == old_order[q - 1]);
                }
            }
        }
        i = i + 1;
    }
    order
}

} // verus!

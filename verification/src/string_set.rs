use vstd::prelude::*;

use crate::format::text_eq;

verus! {

/// The texts of a list of strings.
pub open spec fn views(v: Seq<String>) -> Seq<Seq<char>> {
    v.map_values(|s: String| s@)
}

/// The set of texts held by a list of strings.
pub open spec fn view_set(v: Seq<String>) -> Set<Seq<char>> {
    Set::new(|x: Seq<char>| exists|i: int| 0 <= i < v.len() && #[trigger] v[i]@ == x)
}

/// No text occurs twice in the list.
pub open spec fn distinct_views(v: Seq<String>) -> bool {
    forall|i: int, j: int| 0 <= i < v.len() && 0 <= j < v.len() && i != j ==> #[trigger] v[i]@ != #[trigger] v[j]@
}

/// The order of `str`: character by character by code point, a proper
/// prefix first. Comparing the UTF-8 bytes, as `str` does, gives the same
/// order, since UTF-8 keeps the order of code points.
pub open spec fn text_lt(a: Seq<char>, b: Seq<char>) -> bool
    decreases a.len(),
{
    if a.len() == 0 {
        b.len() > 0
    } else if b.len() == 0 {
        false
    } else if a[0] != b[0] {
        (a[0] as int) < (b[0] as int)
    } else {
        text_lt(a.drop_first(), b.drop_first())
    }
}

/// Each text comes before the ones after it: the order of a `BTreeSet`.
pub open spec fn sorted_views(v: Seq<String>) -> bool {
    forall|i: int, j: int| 0 <= i < j < v.len() ==> text_lt(#[trigger] v[i]@, #[trigger] v[j]@)
}

proof fn lemma_text_lt_irreflexive(a: Seq<char>)
    ensures
        !text_lt(a, a),
    decreases a.len(),
{
    if a.len() > 0 {
        lemma_text_lt_irreflexive(a.drop_first());
    }
}

proof fn lemma_text_lt_asymmetric(a: Seq<char>, b: Seq<char>)
    requires
        text_lt(a, b),
    ensures
        !text_lt(b, a),
    decreases a.len(),
{
    if a.len() > 0 && b.len() > 0 && a[0] == b[0] {
        lemma_text_lt_asymmetric(a.drop_first(), b.drop_first());
    }
}

proof fn lemma_text_lt_transitive(a: Seq<char>, b: Seq<char>, c: Seq<char>)
    requires
        text_lt(a, b),
        text_lt(b, c),
    ensures
        text_lt(a, c),
    decreases a.len(),
{
    if a.len() > 0 && b.len() > 0 && c.len() > 0 && a[0] == b[0] && b[0] == c[0] {
        lemma_text_lt_transitive(a.drop_first(), b.drop_first(), c.drop_first());
    }
}

proof fn lemma_text_lt_total(a: Seq<char>, b: Seq<char>)
    requires
        a != b,
    ensures
        text_lt(a, b) || text_lt(b, a),
    decreases a.len(),
{
    if a.len() > 0 && b.len() > 0 {
        if a[0] == b[0] {
            assert(a =~= seq![a[0]] + a.drop_first());
            assert(b =~= seq![b[0]] + b.drop_first());
            lemma_text_lt_total(a.drop_first(), b.drop_first());
        }
    } else if a.len() == 0 && b.len() == 0 {
        assert(a =~= b);
    }
}

proof fn lemma_sorted_distinct(v: Seq<String>)
    requires
        sorted_views(v),
    ensures
        distinct_views(v),
{
    assert forall|i: int, j: int| 0 <= i < v.len() && 0 <= j < v.len() && i != j implies #[trigger] v[i]@ != #[trigger] v[j]@ by {
        lemma_text_lt_irreflexive(v[i]@);
        if i < j {
            assert(text_lt(v[i]@, v[j]@));
        } else {
            assert(text_lt(v[j]@, v[i]@));
        }
    }
}

/// Selections are kept in a strict total order: no text comes before
/// itself, two texts never come before each other, the order is transitive,
/// and of two different texts one comes first.
pub proof fn law_text_order_is_strict_total(a: Seq<char>, b: Seq<char>, c: Seq<char>)
    ensures
        !text_lt(a, a),
        text_lt(a, b) ==> !text_lt(b, a),
        text_lt(a, b) && text_lt(b, c) ==> text_lt(a, c),
        a != b ==> text_lt(a, b) || text_lt(b, a),
{
    lemma_text_lt_irreflexive(a);
    if text_lt(a, b) {
        lemma_text_lt_asymmetric(a, b);
        if text_lt(b, c) {
            lemma_text_lt_transitive(a, b, c);
        }
    }
    if a != b {
        lemma_text_lt_total(a, b);
    }
}

/// Whether `a` comes before `b` in the order of `str`.
pub fn text_less(a: &str, b: &str) -> (less: bool)
    ensures
        less == text_lt(a@, b@),
{
    let n = a.unicode_len();
    let m = b.unicode_len();
    let mut i: usize = 0;
    proof {
        assert(a@.skip(0) =~= a@);
        assert(b@.skip(0) =~= b@);
    }
    while i < n && i < m
        invariant
            n == a@.len(),
            m == b@.len(),
            i <= n,
            i <= m,
            text_lt(a@, b@) == text_lt(a@.skip(i as int), b@.skip(i as int)),
        decreases n - i,
    {
        let ca = a.get_char(i);
        let cb = b.get_char(i);
        if ca != cb {
            return (ca as u32) < (cb as u32);
        }
        proof {
            assert(a@.skip(i as int).drop_first() =~= a@.skip(i + 1));
            assert(b@.skip(i as int).drop_first() =~= b@.skip(i + 1));
        }
        i = i + 1;
    }
    i == n && i < m
}

/// The position of a text in a list, if it is there.
pub fn position_of(v: &Vec<String>, x: &str) -> (found: Option<usize>)
    ensures
        match found {
            Some(i) => i < v@.len() && v@[i as int]@ == x@,
            None => !view_set(v@).contains(x@),
        },
{
    let mut i: usize = 0;
    while i < v.len()
        invariant
            i <= v@.len(),
            forall|j: int| 0 <= j < i ==> v@[j]@ != x@,
        decreases v@.len() - i,
    {
        if text_eq(v[i].as_str(), x) {
            return Some(i);
        }
        i = i + 1;
    }
    None
}

/// Whether a list holds a text.
pub fn contains_text_in(v: &Vec<String>, x: &str) -> (found: bool)
    ensures
        found == view_set(v@).contains(x@),
{
    match position_of(v, x) {
        Some(i) => {
            assert(v@[i as int]@ == x@);
            true
        },
        None => false,
    }
}

/// Adds a text to a sorted list of texts, at its place in the order;
/// reports whether it was new.
pub fn insert_text(v: &mut Vec<String>, x: &str) -> (inserted: bool)
    requires
        sorted_views(old(v)@),
    ensures
        sorted_views(final(v)@),
        view_set(final(v)@) == view_set(old(v)@).insert(x@),
        inserted == !view_set(old(v)@).contains(x@),
        !inserted ==> final(v)@ == old(v)@,
{
    let ghost before = v@;
    let mut i: usize = 0;
    while i < v.len() && text_less(v[i].as_str(), x)
        invariant
            v@ == before,
            sorted_views(before),
            i <= before.len(),
            forall|k: int| 0 <= k < i ==> text_lt(#[trigger] before[k]@, x@),
        decreases before.len() - i,
    {
        i = i + 1;
    }
    if i < v.len() && text_eq(v[i].as_str(), x) {
        proof {
            assert(view_set(before).contains(x@)) by {
                assert(before[i as int]@ == x@);
            }
            assert(view_set(before).insert(x@) =~= view_set(before));
        }
        return false;
    }
    proof {
        // Every text from position i on comes after x.
        assert forall|k: int| i <= k < before.len() implies text_lt(x@, #[trigger] before[k]@) by {
            let first = before[i as int]@;
            assert(!text_lt(first, x@));
            assert(first != x@);
            lemma_text_lt_total(first, x@);
            if k > i {
                lemma_text_lt_transitive(x@, first, before[k]@);
            }
        }
        assert(!view_set(before).contains(x@)) by {
            if view_set(before).contains(x@) {
                let k = choose|k: int| 0 <= k < before.len() && before[k]@ == x@;
                lemma_text_lt_irreflexive(x@);
                if k < i {
                    assert(text_lt(before[k]@, x@));
                } else {
                    assert(text_lt(x@, before[k]@));
                }
            }
        }
    }
    let item = x.to_string();
    v.insert(i, item);
    proof {
        let nv = final(v)@;
        assert(nv =~= before.insert(i as int, item));
        assert forall|p: int, q: int| 0 <= p < q < nv.len() implies text_lt(#[trigger] nv[p]@, #[trigger] nv[q]@) by {
            if q < i {
                assert(nv[p] == before[p] && nv[q] == before[q]);
            } else if q == i {
                assert(nv[p] == before[p]);
            } else if p < i {
                assert(nv[p] == before[p] && nv[q] == before[q - 1]);
                lemma_text_lt_transitive(before[p]@, x@, before[q - 1]@);
            } else if p == i {
                assert(nv[q] == before[q - 1]);
            } else {
                assert(nv[p] == before[p - 1] && nv[q] == before[q - 1]);
            }
        }
        assert forall|y: Seq<char>| view_set(nv).contains(y) == view_set(before).insert(x@).contains(y) by {
            if view_set(before).contains(y) {
                let k = choose|k: int| 0 <= k < before.len() && before[k]@ == y;
                if k < i {
                    assert(nv[k] == before[k]);
                } else {
                    assert(nv[k + 1] == before[k]);
                }
            }
            if view_set(nv).contains(y) {
                let k = choose|k: int| 0 <= k < nv.len() && nv[k]@ == y;
                if k < i {
                    assert(nv[k] == before[k]);
                } else if k > i {
                    assert(nv[k] == before[k - 1]);
                }
            }
            if y == x@ {
                assert(nv[i as int]@ == y);
            }
        }
        assert(view_set(nv) =~= view_set(before).insert(x@));
    }
    true
}

/// Removes a text from a sorted list of texts; reports whether it was there.
pub fn remove_text(v: &mut Vec<String>, x: &str) -> (removed: bool)
    requires
        sorted_views(old(v)@),
    ensures
        sorted_views(final(v)@),
        view_set(final(v)@) == view_set(old(v)@).remove(x@),
        removed == view_set(old(v)@).contains(x@),
{
    match position_of(v, x) {
        None => {
            proof {
                assert(view_set(old(v)@).remove(x@) =~= view_set(old(v)@));
            }
            false
        },
        Some(k) => {
            let ghost before = v@;
            v.remove(k);
            proof {
                lemma_sorted_distinct(before);
                let nv = final(v)@;
                assert(nv =~= before.remove(k as int));
                assert forall|i: int, j: int| 0 <= i < j < nv.len() implies text_lt(#[trigger] nv[i]@, #[trigger] nv[j]@) by {
                    let bi = if i < k { i } else { i + 1 };
                    let bj = if j < k { j } else { j + 1 };
                    assert(nv[i] == before[bi]);
                    assert(nv[j] == before[bj]);
                }
                assert forall|y: Seq<char>| view_set(nv).contains(y) == view_set(before).remove(x@).contains(y) by {
                    if view_set(nv).contains(y) {
                        let i = choose|i: int| 0 <= i < nv.len() && nv[i]@ == y;
                        let bi = if i < k { i } else { i + 1 };
                        assert(nv[i] == before[bi]);
                        assert(bi != k);
                    }
                    if view_set(before).remove(x@).contains(y) {
                        let i = choose|i: int| 0 <= i < before.len() && before[i]@ == y;
                        assert(i != k);
                        let ni = if i < k { i } else { i - 1 };
                        assert(nv[ni] == before[i]);
                    }
                }
                assert(view_set(nv) =~= view_set(before).remove(x@));
                assert(view_set(before).contains(x@)) by {
                    assert(before[k as int]@ == x@);
                }
            }
            true
        },
    }
}

proof fn lemma_view_set_push(v: Seq<String>, x: String)
    ensures
        view_set(v.push(x)) == view_set(v).insert(x@),
{
    let nv = v.push(x);
    assert forall|y: Seq<char>| view_set(nv).contains(y) == view_set(v).insert(x@).contains(y) by {
        if view_set(v).contains(y) {
            let i = choose|i: int| 0 <= i < v.len() && v[i]@ == y;
            assert(nv[i] == v[i]);
        }
        if view_set(nv).contains(y) {
            let i = choose|i: int| 0 <= i < nv.len() && nv[i]@ == y;
            if i < v.len() {
                assert(nv[i] == v[i]);
            }
        }
        if y == x@ {
            assert(nv[nv.len() - 1]@ == y);
        }
    }
    assert(view_set(nv) =~= view_set(v).insert(x@));
}

proof fn lemma_sorted_push(v: Seq<String>, x: String, source: Seq<String>, i: int)
    requires
        sorted_views(v),
        sorted_views(source),
        0 <= i < source.len(),
        x == source[i],
        forall|k: int| 0 <= k < v.len() ==> view_set(source.subrange(0, i)).contains(#[trigger] v[k]@),
    ensures
        sorted_views(v.push(x)),
{
    let nv = v.push(x);
    assert forall|p: int, q: int| 0 <= p < q < nv.len() implies text_lt(#[trigger] nv[p]@, #[trigger] nv[q]@) by {
        assert(nv[p] == v[p]);
        if q < v.len() {
            assert(nv[q] == v[q]);
        } else {
            assert(view_set(source.subrange(0, i)).contains(v[p]@));
            let j = choose|j: int| 0 <= j < source.subrange(0, i).len() && source.subrange(0, i)[j]@ == v[p]@;
            assert(source.subrange(0, i)[j] == source[j]);
            assert(text_lt(source[j]@, source[i]@));
        }
    }
}

/// Keeps only the texts of `v` that `keep` also holds, in order.
pub fn retain_texts(v: &mut Vec<String>, keep: &Vec<String>)
    requires
        sorted_views(old(v)@),
    ensures
        sorted_views(final(v)@),
        view_set(final(v)@) == view_set(old(v)@).intersect(view_set(keep@)),
{
    let ghost before = v@;
    let mut kept: Vec<String> = Vec::new();
    let mut i: usize = 0;
    proof {
        assert(view_set(kept@) =~= view_set(before.subrange(0, 0)).intersect(view_set(keep@)));
    }
    while i < v.len()
        invariant
            v@ == before,
            i <= before.len(),
            sorted_views(before),
            view_set(kept@) == view_set(before.subrange(0, i as int)).intersect(view_set(keep@)),
            sorted_views(kept@),
            forall|k: int| 0 <= k < kept@.len() ==> view_set(before.subrange(0, i as int)).contains(#[trigger] kept@[k]@),
        decreases before.len() - i,
    {
        proof {
            assert(before.subrange(0, i + 1) =~= before.subrange(0, i as int).push(before[i as int]));
            lemma_view_set_push(before.subrange(0, i as int), before[i as int]);
        }
        if contains_text_in(keep, v[i].as_str()) {
            let item = v[i].clone();
            proof {
                lemma_view_set_push(kept@, item);
                lemma_sorted_push(kept@, item, before, i as int);
            }
            kept.push(item);
            proof {
                assert(view_set(kept@) =~= view_set(before.subrange(0, i + 1)).intersect(view_set(keep@)));
                assert forall|k: int| 0 <= k < kept@.len() implies view_set(before.subrange(0, i + 1)).contains(#[trigger] kept@[k]@) by {
                    if k < kept@.len() - 1 {
                        assert(view_set(before.subrange(0, i as int)).contains(kept@[k]@));
                    } else {
                        assert(kept@[k]@ == before[i as int]@);
                    }
                }
            }
        } else {
            proof {
                assert(view_set(kept@) =~= view_set(before.subrange(0, i + 1)).intersect(view_set(keep@)));
            }
        }
        i = i + 1;
    }
    proof {
        assert(before.subrange(0, before.len() as int) =~= before);
    }
    *v = kept;
}

/// A copy of a list of strings.
pub fn clone_texts(v: &Vec<String>) -> (copy: Vec<String>)
    ensures
        copy@ == v@,
{
    let mut copy: Vec<String> = Vec::new();
    let mut i: usize = 0;
    while i < v.len()
        invariant
            i <= v@.len(),
            copy@ == v@.take(i as int),
        decreases v@.len() - i,
    {
        copy.push(v[i].clone());
        proof {
            assert(v@.take(i + 1) =~= v@.take(i as int).push(v@[i as int]));
        }
        i = i + 1;
    }
    proof {
        assert(v@.take(v@.len() as int) =~= v@);
    }
    copy
}

} // verus!

//! The order of text by code points, as `str`'s `Ord` orders it, and sorted
//! sets of names kept in that order.
use vstd::prelude::*;
use vstd::string::*;

verus! {

/// `a` comes strictly before `b`: at the first position where they differ,
/// `a` holds the smaller code point, or `a` is a proper prefix of `b`.
pub open spec fn text_lt(a: Seq<char>, b: Seq<char>) -> bool
    decreases a.len(),
{
    if a.len() == 0 {
        b.len() > 0
    } else if b.len() == 0 {
        false
    } else if a[0] != b[0] {
        (a[0] as int) < (b[0] as int)
    } else {
        text_lt(a.drop_first(), b.drop_first())
    }
}

/// No text comes before itself.
pub proof fn lemma_text_lt_irreflexive(a: Seq<char>)
    ensures
        !text_lt(a, a),
    decreases a.len(),
{
    if a.len() > 0 {
        lemma_text_lt_irreflexive(a.drop_first());
    }
}

/// Of two different texts, one comes before the other.
pub proof fn lemma_text_lt_total(a: Seq<char>, b: Seq<char>)
    requires
        a != b,
    ensures
        text_lt(a, b) || text_lt(b, a),
    decreases a.len(),
{
    if a.len() > 0 && b.len() > 0 && a[0] == b[0] {
        if a.drop_first() == b.drop_first() {
            assert(a =~= seq![a[0]] + a.drop_first());
            assert(b =~= seq![b[0]] + b.drop_first());
        }
        lemma_text_lt_total(a.drop_first(), b.drop_first());
    } else if a.len() == 0 && b.len() == 0 {
        assert(a =~= b);
    }
}

/// The order is transitive.
pub proof fn lemma_text_lt_transitive(a: Seq<char>, b: Seq<char>, c: Seq<char>)
    requires
        text_lt(a, b),
        text_lt(b, c),
    ensures
        text_lt(a, c),
    decreases a.len(),
{
    if a.len() > 0 && a[0] == b[0] && b[0] == c[0] {
        lemma_text_lt_transitive(a.drop_first(), b.drop_first(), c.drop_first());
    }
}

/// Whether `a` comes strictly before `b` in code point order.
pub fn str_less(a: &str, b: &str) -> (r: bool)
    ensures
        r == text_lt(a@, b@),
{
    let la = a.unicode_len();
    let lb = b.unicode_len();
    let mut i: usize = 0;
    assert(a@.subrange(0, la as int) =~= a@);
    assert(b@.subrange(0, lb as int) =~= b@);
    while i < la && i < lb
        invariant
            la == a@.len(),
            lb == b@.len(),
            i <= la,
            i <= lb,
            a@.subrange(0, i as int) == b@.subrange(0, i as int),
            text_lt(a@, b@) == text_lt(a@.subrange(i as int, la as int), b@.subrange(i as int, lb as int)),
        decreases la - i,
    {
        let ca = a.get_char(i);
        let cb = b.get_char(i);
        let ghost sa = a@.subrange(i as int, la as int);
        let ghost sb = b@.subrange(i as int, lb as int);
        if ca != cb {
            return (ca as u32) < (cb as u32);
        }
        assert(sa.drop_first() =~= a@.subrange(i + 1, la as int));
        assert(sb.drop_first() =~= b@.subrange(i + 1, lb as int));
        assert(a@.subrange(0, i + 1) =~= a@.subrange(0, i as int).push(ca));
        assert(b@.subrange(0, i + 1) =~= b@.subrange(0, i as int).push(cb));
        i = i + 1;
    }
    i == la && i < lb
}

/// Whether `a` and `b` hold the same text.
pub fn same_text(a: &str, b: &str) -> (r: bool)
    ensures
        r == (a@ == b@),
{
    let less = str_less(a, b);
    let greater = str_less(b, a);
    proof {
        if a@ == b@ {
            lemma_text_lt_irreflexive(a@);
        } else {
            lemma_text_lt_total(a@, b@);
        }
    }
    !less && !greater
}

/// Whether `name` is one of the texts of `v`.
pub fn contains_text(v: &Vec<String>, name: &str) -> (r: bool)
    ensures
        r == texts(v@).contains(name@),
{
    let mut i: usize = 0;
    while i < v.len()
        invariant
            i <= v.len(),
            forall|j: int| 0 <= j < i ==> texts(v@)[j] != name@,
        decreases v.len() - i,
    {
        if same_text(v[i].as_str(), name) {
            assert(texts(v@)[i as int] == name@);
            return true;
        }
        i = i + 1;
    }
    false
}

/// The texts of a sequence of strings.
pub open spec fn texts(v: Seq<String>) -> Seq<Seq<char>> {
    v.map_values(|s: String| s@)
}

/// The texts come in strictly increasing order (so none occurs twice).
pub open spec fn strictly_sorted(t: Seq<Seq<char>>) -> bool {
    forall|i: int, j: int| 0 <= i < j < t.len() ==> text_lt(#[trigger] t[i], #[trigger] t[j])
}

/// Adds `x` to a strictly sorted vector of strings, where it is not yet.
pub fn insert_sorted(v: &mut Vec<String>, x: String)
    requires
        strictly_sorted(texts(old(v)@)),
    ensures
        strictly_sorted(texts(final(v)@)),
        texts(final(v)@).to_set() == texts(old(v)@).to_set().insert(x@),
{
    let ghost old_t = texts(v@);
    let mut i: usize = 0;
    while i < v.len() && str_less(v[i].as_str(), x.as_str())
        invariant
            strictly_sorted(texts(v@)),
            texts(v@) == old_t,
            i <= v.len(),
            forall|j: int| 0 <= j < i ==> text_lt(#[trigger] texts(v@)[j], x@),
        decreases v.len() - i,
    {
        i = i + 1;
    }
    let n = v.len();
    if i < n && !str_less(x.as_str(), v[i].as_str()) {
        // neither comes first: they are the same text
        proof {
            assert(texts(v@)[i as int] == v[i as int]@);
            if v[i as int]@ != x@ {
                lemma_text_lt_total(v[i as int]@, x@);
            }
            assert(texts(v@)[i as int] == x@);
            assert(old_t.to_set().insert(x@) =~= old_t.to_set());
        }
        return;
    }
    proof {
        if i < n {
            assert(text_lt(x@, texts(v@)[i as int]));
            assert forall|j: int| i < j < n implies text_lt(x@, #[trigger] texts(v@)[j]) by {
                lemma_text_lt_transitive(x@, texts(v@)[i as int], texts(v@)[j]);
            }
        }
    }
    let ghost xv = x@;
    v.insert(i, x);
    proof {
        let t = texts(v@);
        assert(t =~= old_t.insert(i as int, xv));
        assert forall|a: int, b: int| 0 <= a < b < t.len() implies text_lt(#[trigger] t[a], #[trigger] t[b]) by {
            if a < i && b < i {
            } else if a < i && b == i {
            } else if a < i && b > i {
                assert(t[a] == old_t[a]);
                assert(t[b] == old_t[b - 1]);
            } else if a == i {
                assert(t[b] == old_t[b - 1]);
            } else {
                assert(t[a] == old_t[a - 1]);
                assert(t[b] == old_t[b - 1]);
            }
        }
        assert(t.to_set() =~= old_t.to_set().insert(xv)) by {
            assert forall|y: Seq<char>| t.to_set().contains(y) implies old_t.to_set().insert(xv).contains(y) by {
                let k = choose|k: int| 0 <= k < t.len() && t[k] == y;
                if k < i {
                    assert(old_t[k] == y);
                } else if k > i {
                    assert(old_t[k - 1] == y);
                }
            }
            assert forall|y: Seq<char>| old_t.to_set().insert(xv).contains(y) implies t.to_set().contains(y) by {
                if y == xv {
                    assert(t[i as int] == y);
                } else {
                    let k = choose|k: int| 0 <= k < old_t.len() && old_t[k] == y;
                    if k < i {
                        assert(t[k] == y);
                    } else {
                        assert(t[k + 1] == y);
                    }
                }
            }
        }
    }
}

} // verus!

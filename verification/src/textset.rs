//! Sets of texts as strictly ascending lists.
use crate::text::less;
use crate::text;
use vstd::prelude::*;

verus! {

/// Whether each text comes before the next.
pub open spec fn ascending(s: Seq<String>) -> bool {
    forall|i: int, j: int| 0 <= i < j < s.len() ==> text::text_less((#[trigger] s[i])@, (#[trigger] s[j])@)
}

/// The texts of a list as a set.
pub open spec fn text_set(s: Seq<String>) -> Set<Seq<char>> {
    text::texts(s).to_set()
}

/// Membership in the set of a list.
pub proof fn lemma_text_set(s: Seq<String>, t: Seq<char>)
    ensures
        text_set(s).contains(t) <==> exists|i: int| 0 <= i < s.len() && (#[trigger] s[i])@ == t,
{
    if text_set(s).contains(t) {
        let i = choose|i: int| 0 <= i < text::texts(s).len() && text::texts(s)[i] == t;
        assert(s[i]@ == t);
    }
    if exists|i: int| 0 <= i < s.len() && (#[trigger] s[i])@ == t {
        let i = choose|i: int| 0 <= i < s.len() && (#[trigger] s[i])@ == t;
        assert(text::texts(s)[i] == t);
    }
}

/// An ascending list holds nothing twice.
pub proof fn ascending_holds_nothing_twice(s: Seq<String>)
    requires
        ascending(s),
    ensures
        text::texts(s).no_duplicates(),
{
    assert forall|i: int, j: int| 0 <= i < text::texts(s).len() && 0 <= j < text::texts(s).len() && i != j
        implies text::texts(s)[i] != text::texts(s)[j] by {
        text::lemma_less_irreflexive(s[i]@);
        if i < j {
            assert(text::text_less(s[i]@, s[j]@));
        } else {
            assert(text::text_less(s[j]@, s[i]@));
        }
    }
}

/// Puts a text into an ascending list, at its place.
pub fn insert_text(v: &mut Vec<String>, t: &str)
    requires
        ascending(old(v)@),
    ensures
        ascending(final(v)@),
        text_set(final(v)@) == text_set(old(v)@).insert(t@),
{
    let ghost original = v@;
    let mut k: usize = 0;
    while k < v.len() && less(&v[k], t)
        invariant
            k <= v.len(),
            v@ == original,
            forall|j: int| 0 <= j < k ==> text::text_less((#[trigger] original[j])@, t@),
        decreases v.len() - k,
    {
        k = k + 1;
    }
    if k < v.len() && !less(t, &v[k]) {
        proof {
            text::lemma_less_total(original[k as int]@, t@);
            assert(original[k as int]@ == t@);
            assert(text::texts(original)[k as int] == t@);
            assert(text_set(original).contains(t@));
            assert(text_set(original) =~= text_set(original).insert(t@));
        }
        return;
    }
    v.insert(k, t.to_owned());
    proof {
        let now = v@;
        assert forall|i: int, j: int| 0 <= i < j < now.len() implies text::text_less(
            (#[trigger] now[i])@,
            (#[trigger] now[j])@,
        ) by {
            if j == k {
                assert(now[i] == original[i]);
            } else if i == k {
                assert(now[j] == original[j - 1]);
                assert(text::text_less(t@, original[k as int]@));
                if j - 1 > k {
                    assert(text::text_less(original[k as int]@, original[j - 1]@));
                    text::lemma_less_transitive(t@, original[k as int]@, original[j - 1]@);
                }
            } else {
                let x = if i < k { i } else { i - 1 };
                let y = if j < k { j } else { j - 1 };
                assert(now[i] == original[x] && now[j] == original[y]);
                assert(text::text_less(original[x]@, original[y]@));
            }
        }
        assert forall|s: Seq<char>| text_set(now).contains(s) <==> (text_set(original).contains(s)
            || s == t@) by {
            lemma_text_set(now, s);
            lemma_text_set(original, s);
            if text_set(original).contains(s) {
                let i = choose|i: int| 0 <= i < original.len() && (#[trigger] original[i])@ == s;
                let x = if i < k { i } else { i + 1 };
                assert(now[x]@ == s);
            }
            if s == t@ {
                assert(now[k as int]@ == s);
            }
            if text_set(now).contains(s) && s != t@ {
                let i = choose|i: int| 0 <= i < now.len() && (#[trigger] now[i])@ == s;
                let x = if i < k { i } else { i - 1 };
                assert(original[x]@ == s);
            }
        }
        assert(text_set(now) =~= text_set(original).insert(t@));
    }
}

/// How many different texts a list holds.
pub fn distinct_count(v: &Vec<String>) -> (n: usize)
    ensures
        n == text_set(v@).len(),
        text_set(v@).finite(),
{
    let mut seen: Vec<String> = Vec::new();
    let mut i: usize = 0;
    assert(v@.take(0) =~= Seq::<String>::empty());
    assert(seen@ =~= Seq::<String>::empty());
    while i < v.len()
        invariant
            i <= v.len(),
            ascending(seen@),
            text_set(seen@) == text_set(v@.take(i as int)),
        decreases v.len() - i,
    {
        let ghost before = seen@;
        insert_text(&mut seen, &v[i]);
        proof {
            assert forall|t: Seq<char>| text_set(v@.take(i + 1)).contains(t) <==> text_set(
                before,
            ).insert(v@[i as int]@).contains(t) by {
                lemma_text_set(v@.take(i + 1), t);
                lemma_text_set(v@.take(i as int), t);
                if text_set(v@.take(i as int)).contains(t) {
                    let j = choose|j: int| 0 <= j < v@.take(i as int).len() && (#[trigger] v@.take(i as int)[j])@ == t;
                    assert(v@.take(i + 1)[j]@ == t);
                }
                if t == v@[i as int]@ {
                    assert(v@.take(i + 1)[i as int]@ == t);
                }
                if text_set(v@.take(i + 1)).contains(t) && t != v@[i as int]@ {
                    let j = choose|j: int| 0 <= j < v@.take(i + 1).len() && (#[trigger] v@.take(i + 1)[j])@ == t;
                    assert(v@.take(i as int)[j]@ == t);
                }
            }
            assert(text_set(seen@) =~= text_set(v@.take(i + 1)));
        }
        i = i + 1;
    }
    proof {
        assert(v@.take(v@.len() as int) =~= v@);
        ascending_holds_nothing_twice(seen@);
        text::texts(seen@).unique_seq_to_set();
        vstd::seq_lib::seq_to_set_is_finite(text::texts(seen@));
    }
    seen.len()
}

/// A list ascends exactly where every text comes before every later one.
pub proof fn every_text_comes_before_the_later(s: Seq<String>)
    ensures
        ascending(s) <==> forall|i: int, j: int|
            0 <= i < j < s.len() ==> text::text_less((#[trigger] s[i])@, (#[trigger] s[j])@),
{
}

} // verus!

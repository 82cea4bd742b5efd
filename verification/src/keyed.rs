//! Lists of named things kept in the order of their names, each name once: what a map keyed by
//! text holds, with the order it is walked in.
use crate::identifier::{
    compare_text, lemma_text_before_asymmetric, lemma_text_before_irreflexive,
    lemma_text_before_total, lemma_text_before_transitive, text_before,
};
use crate::text::same_text;
use vstd::prelude::*;

verus! {

/// Whether the names come in strictly rising order, which also keeps each of them once.
pub open spec fn keys_sorted<T>(s: Seq<(String, T)>) -> bool {
    forall|i: int, j: int| 0 <= i < j < s.len() ==> text_before(#[trigger] s[i].0@, #[trigger] s[j].0@)
}

/// The list with `x` filed under `k`: in its place by name, over what was filed there before.
pub open spec fn placed<T>(s: Seq<(String, T)>, k: String, x: T) -> Seq<(String, T)>
    decreases s.len(),
{
    if s.len() == 0 {
        seq![(k, x)]
    } else if s[0].0@ == k@ {
        seq![(k, x)] + s.drop_first()
    } else if text_before(k@, s[0].0@) {
        seq![(k, x)] + s
    } else {
        seq![s[0]] + placed(s.drop_first(), k, x)
    }
}

/// What is filed under `k`, if anything.
pub open spec fn filed<T>(s: Seq<(String, T)>, k: Seq<char>) -> Option<T>
    decreases s.len(),
{
    if s.len() == 0 {
        None
    } else if s[0].0@ == k {
        Some(s[0].1)
    } else {
        filed(s.drop_first(), k)
    }
}

/// The list with `v` filed under `k`, for lists of names and what stands for their things.
pub open spec fn placed_view<V>(s: Seq<(Seq<char>, V)>, k: Seq<char>, v: V) -> Seq<(Seq<char>, V)>
    decreases s.len(),
{
    if s.len() == 0 {
        seq![(k, v)]
    } else if s[0].0 == k {
        seq![(k, v)] + s.drop_first()
    } else if text_before(k, s[0].0) {
        seq![(k, v)] + s
    } else {
        seq![s[0]] + placed_view(s.drop_first(), k, v)
    }
}

/// The names of a list, each with what `f` makes of its thing.
pub open spec fn named_by<T, V>(s: Seq<(String, T)>, f: spec_fn(T) -> V) -> Seq<(Seq<char>, V)> {
    s.map_values(|p: (String, T)| (p.0@, f(p.1)))
}

/// Whether some entry carries the name `k`.
pub open spec fn has_name<V>(s: Seq<(Seq<char>, V)>, k: Seq<char>) -> bool {
    exists|i: int| 0 <= i < s.len() && (#[trigger] s[i]).0 == k
}

/// Filing and then naming is naming and then filing.
pub proof fn lemma_placed_named<T, V>(s: Seq<(String, T)>, k: String, x: T, f: spec_fn(T) -> V)
    ensures
        named_by(placed(s, k, x), f) == placed_view(named_by(s, f), k@, f(x)),
    decreases s.len(),
{
    let n = named_by(s, f);
    if s.len() == 0 {
        assert(named_by(placed(s, k, x), f) =~= seq![(k@, f(x))]);
    } else {
        assert(n[0] == (s[0].0@, f(s[0].1)));
        assert(n.drop_first() =~= named_by(s.drop_first(), f));
        if s[0].0@ == k@ {
            assert(named_by(placed(s, k, x), f) =~= seq![(k@, f(x))] + n.drop_first());
        } else if text_before(k@, s[0].0@) {
            assert(named_by(placed(s, k, x), f) =~= seq![(k@, f(x))] + n);
        } else {
            lemma_placed_named(s.drop_first(), k, x, f);
            assert(named_by(placed(s, k, x), f) =~= seq![n[0]] + named_by(
                placed(s.drop_first(), k, x),
                f,
            ));
        }
    }
}

/// Something is filed under a name exactly where some entry carries it.
pub proof fn lemma_filed_has_name<T, V>(s: Seq<(String, T)>, k: Seq<char>, f: spec_fn(T) -> V)
    ensures
        filed(s, k) is Some <==> has_name(named_by(s, f), k),
    decreases s.len(),
{
    let n = named_by(s, f);
    if s.len() > 0 {
        lemma_filed_has_name(s.drop_first(), k, f);
        let m = named_by(s.drop_first(), f);
        assert(m =~= n.drop_first());
        if has_name(m, k) {
            let i = choose|i: int| 0 <= i < m.len() && (#[trigger] m[i]).0 == k;
            assert(n[i + 1] == m[i]);
        }
        if has_name(n, k) && s[0].0@ != k {
            let i = choose|i: int| 0 <= i < n.len() && (#[trigger] n[i]).0 == k;
            assert(i != 0);
            assert(m[i - 1] == n[i]);
        }
        if s[0].0@ == k {
            assert(n[0].0 == k);
        }
    }
}

/// Where `x` goes among sorted names: after every name before `k`, at the first that is not.
proof fn lemma_placed_at<T>(s: Seq<(String, T)>, k: String, x: T, i: int)
    requires
        keys_sorted(s),
        0 <= i <= s.len(),
        forall|j: int| 0 <= j < i ==> text_before(#[trigger] s[j].0@, k@),
        i < s.len() ==> !text_before(s[i].0@, k@),
    ensures
        placed(s, k, x) == (if i < s.len() && s[i].0@ == k@ {
            s.take(i) + seq![(k, x)] + s.skip(i + 1)
        } else {
            s.take(i) + seq![(k, x)] + s.skip(i)
        }),
    decreases i,
{
    if i == 0 {
        if s.len() > 0 && s[0].0@ != k@ {
            lemma_text_before_total(k@, s[0].0@);
        }
        assert(s.take(0) + seq![(k, x)] + s.skip(1) =~= seq![(k, x)] + s.drop_first());
        assert(s.take(0) + seq![(k, x)] + s.skip(0) =~= seq![(k, x)] + s);
    } else {
        assert(text_before(s[0].0@, k@));
        lemma_text_before_irreflexive(k@);
        lemma_text_before_asymmetric(s[0].0@, k@);
        let rest = s.drop_first();
        assert forall|a: int, b: int| 0 <= a < b < rest.len() implies text_before(
            #[trigger] rest[a].0@,
            #[trigger] rest[b].0@,
        ) by {
            assert(rest[a] == s[a + 1]);
            assert(rest[b] == s[b + 1]);
        }
        assert forall|j: int| 0 <= j < i - 1 implies text_before(#[trigger] rest[j].0@, k@) by {
            assert(rest[j] == s[j + 1]);
        }
        lemma_placed_at(rest, k, x, i - 1);
        if i < s.len() && s[i].0@ == k@ {
            assert(seq![s[0]] + (rest.take(i - 1) + seq![(k, x)] + rest.skip(i)) =~= s.take(i)
                + seq![(k, x)] + s.skip(i + 1));
        } else {
            assert(seq![s[0]] + (rest.take(i - 1) + seq![(k, x)] + rest.skip(i - 1)) =~= s.take(i)
                + seq![(k, x)] + s.skip(i));
        }
    }
}

/// Filing something keeps the names in order.
pub proof fn lemma_placed_sorted<T>(s: Seq<(String, T)>, k: String, x: T)
    requires
        keys_sorted(s),
    ensures
        keys_sorted(placed(s, k, x)),
    decreases s.len(),
{
    if s.len() > 0 && s[0].0@ != k@ && !text_before(k@, s[0].0@) {
        lemma_text_before_total(k@, s[0].0@);
        let rest = s.drop_first();
        assert forall|a: int, b: int| 0 <= a < b < rest.len() implies text_before(
            #[trigger] rest[a].0@,
            #[trigger] rest[b].0@,
        ) by {
            assert(rest[a] == s[a + 1]);
            assert(rest[b] == s[b + 1]);
        }
        lemma_placed_sorted(rest, k, x);
        lemma_placed_names(rest, k, x);
        let p = placed(s, k, x);
        assert forall|a: int, b: int| 0 <= a < b < p.len() implies text_before(
            #[trigger] p[a].0@,
            #[trigger] p[b].0@,
        ) by {
            let q = placed(rest, k, x);
            assert(p[b] == q[b - 1]);
            if a > 0 {
                assert(p[a] == q[a - 1]);
            }
            if a == 0 {
                if q[b - 1].0@ == k@ {
                } else {
                    let m = choose|m: int| 0 <= m < rest.len() && rest[m].0@ == q[b - 1].0@;
                    assert(rest[m] == s[m + 1]);
                }
            }
        }
    } else if s.len() > 0 && s[0].0@ == k@ {
        let p = placed(s, k, x);
        assert forall|a: int, b: int| 0 <= a < b < p.len() implies text_before(
            #[trigger] p[a].0@,
            #[trigger] p[b].0@,
        ) by {
            assert(p[b] == s[b]);
            if a > 0 {
                assert(p[a] == s[a]);
            }
        }
    } else if s.len() > 0 {
        let p = placed(s, k, x);
        assert forall|a: int, b: int| 0 <= a < b < p.len() implies text_before(
            #[trigger] p[a].0@,
            #[trigger] p[b].0@,
        ) by {
            assert(p[b] == s[b - 1]);
            if a > 0 {
                assert(p[a] == s[a - 1]);
            } else if b > 1 {
                lemma_text_before_transitive(k@, s[0].0@, s[b - 1].0@);
            }
        }
    }
}

/// Every name after filing is `k` or one that was there.
proof fn lemma_placed_names<T>(s: Seq<(String, T)>, k: String, x: T)
    ensures
        forall|i: int|
            0 <= i < placed(s, k, x).len() ==> (#[trigger] placed(s, k, x)[i]).0@ == k@ || exists|
                m: int,
            | 0 <= m < s.len() && s[m].0@ == placed(s, k, x)[i].0@,
    decreases s.len(),
{
    let p = placed(s, k, x);
    if s.len() > 0 && s[0].0@ != k@ && !text_before(k@, s[0].0@) {
        let rest = s.drop_first();
        lemma_placed_names(rest, k, x);
        assert forall|i: int| 0 <= i < p.len() implies (#[trigger] p[i]).0@ == k@ || exists|m: int|
            0 <= m < s.len() && s[m].0@ == p[i].0@ by {
            if i == 0 {
                assert(s[0].0@ == p[0].0@);
            } else {
                let q = placed(rest, k, x);
                assert(p[i] == q[i - 1]);
                if q[i - 1].0@ != k@ {
                    let m = choose|m: int| 0 <= m < rest.len() && rest[m].0@ == q[i - 1].0@;
                    assert(rest[m] == s[m + 1]);
                }
            }
        }
    } else if s.len() > 0 && s[0].0@ == k@ {
        assert forall|i: int| 0 <= i < p.len() implies (#[trigger] p[i]).0@ == k@ || exists|m: int|
            0 <= m < s.len() && s[m].0@ == p[i].0@ by {
            if i > 0 {
                assert(p[i] == s[i]);
            }
        }
    } else if s.len() > 0 {
        assert forall|i: int| 0 <= i < p.len() implies (#[trigger] p[i]).0@ == k@ || exists|m: int|
            0 <= m < s.len() && s[m].0@ == p[i].0@ by {
            if i > 0 {
                assert(p[i] == s[i - 1]);
            }
        }
    }
}

/// What a list files, as a map from names to things.
pub open spec fn filing<T>(s: Seq<(String, T)>) -> Map<Seq<char>, T> {
    Map::new(|k: Seq<char>| filed(s, k) is Some, |k: Seq<char>| filed(s, k).unwrap())
}

/// In a sorted list, what is filed under an entry's name is that entry's thing.
pub proof fn lemma_filed_at<T>(s: Seq<(String, T)>, j: int)
    requires
        keys_sorted(s),
        0 <= j < s.len(),
    ensures
        filed(s, s[j].0@) == Some(s[j].1),
    decreases j,
{
    if j > 0 {
        lemma_text_before_irreflexive(s[j].0@);
        let rest = s.drop_first();
        assert forall|a: int, b: int| 0 <= a < b < rest.len() implies text_before(
            #[trigger] rest[a].0@,
            #[trigger] rest[b].0@,
        ) by {
            assert(rest[a] == s[a + 1]);
            assert(rest[b] == s[b + 1]);
        }
        assert(rest[j - 1] == s[j]);
        lemma_filed_at(rest, j - 1);
    }
}

/// Nothing is filed under a name no entry carries.
pub proof fn lemma_filed_none<T>(s: Seq<(String, T)>, k: Seq<char>)
    requires
        forall|j: int| 0 <= j < s.len() ==> (#[trigger] s[j]).0@ != k,
    ensures
        filed(s, k) is None,
    decreases s.len(),
{
    if s.len() > 0 {
        assert(s[0].0@ != k);
        assert forall|j: int| 0 <= j < s.drop_first().len() implies (
        #[trigger] s.drop_first()[j]).0@ != k by {
            assert(s.drop_first()[j] == s[j + 1]);
        }
        lemma_filed_none(s.drop_first(), k);
    }
}

/// Something is filed under a name only where an entry carries it.
pub proof fn lemma_filed_some<T>(s: Seq<(String, T)>, k: Seq<char>)
    requires
        filed(s, k) is Some,
    ensures
        exists|j: int| 0 <= j < s.len() && (#[trigger] s[j]).0@ == k && filed(s, k) == Some(s[j].1),
    decreases s.len(),
{
    if s[0].0@ != k {
        lemma_filed_some(s.drop_first(), k);
        let j = choose|j: int|
            0 <= j < s.drop_first().len() && (#[trigger] s.drop_first()[j]).0@ == k && filed(
                s.drop_first(),
                k,
            ) == Some(s.drop_first()[j].1);
        assert(s[j + 1] == s.drop_first()[j]);
    } else {
        assert(s[0].0@ == k);
    }
}

/// Filing `x` under `k` changes what is filed under `k` alone.
pub proof fn lemma_filed_placed<T>(s: Seq<(String, T)>, k: String, x: T, q: Seq<char>)
    ensures
        filed(placed(s, k, x), q) == (if q == k@ {
            Some(x)
        } else {
            filed(s, q)
        }),
    decreases s.len(),
{
    let p = placed(s, k, x);
    if s.len() > 0 && s[0].0@ != k@ && !text_before(k@, s[0].0@) {
        lemma_filed_placed(s.drop_first(), k, x, q);
        assert(p[0] == s[0]);
        assert(p.drop_first() =~= placed(s.drop_first(), k, x));
        assert(filed(p, q) == (if p[0].0@ == q { Some(p[0].1) } else { filed(p.drop_first(), q) }));
        assert(filed(s, q) == (if s[0].0@ == q { Some(s[0].1) } else { filed(s.drop_first(), q) }));
    } else if s.len() > 0 && s[0].0@ == k@ {
        assert(p[0] == (k, x));
        assert(p.drop_first() =~= s.drop_first());
    } else if s.len() > 0 {
        assert(p[0] == (k, x));
        assert(p.drop_first() =~= s);
    } else {
        assert(p[0] == (k, x));
        assert(p.drop_first() =~= Seq::<(String, T)>::empty());
    }
}

/// Filing `x` under `k` is putting it in the map under `k`.
pub proof fn lemma_filing_placed<T>(s: Seq<(String, T)>, k: String, x: T)
    ensures
        filing(placed(s, k, x)) == filing(s).insert(k@, x),
{
    assert forall|q: Seq<char>| #[trigger] filed(placed(s, k, x), q) == (if q == k@ {
        Some(x)
    } else {
        filed(s, q)
    }) by {
        lemma_filed_placed(s, k, x, q);
    }
    assert(filing(placed(s, k, x)) =~= filing(s).insert(k@, x));
}

/// Takes out what is filed under `k`, if anything is.
pub fn unfile<T>(v: &mut Vec<(String, T)>, k: &str) -> (r: Option<T>)
    requires
        keys_sorted(old(v)@),
    ensures
        r == filed(old(v)@, k@),
        keys_sorted(final(v)@),
        filing(final(v)@) == filing(old(v)@).remove(k@),
{
    match find_filed(v, k) {
        Some(i) => {
            let ghost s = v@;
            let (_, x) = v.remove(i);
            proof {
                let t = v@;
                assert(t =~= s.remove(i as int));
                assert forall|a: int, b: int| 0 <= a < b < t.len() implies text_before(
                    #[trigger] t[a].0@,
                    #[trigger] t[b].0@,
                ) by {
                    let a2 = if a < i { a } else { a + 1 };
                    let b2 = if b < i { b } else { b + 1 };
                    assert(t[a] == s[a2]);
                    assert(t[b] == s[b2]);
                }
                assert forall|q: Seq<char>| #[trigger] filed(t, q) == (if q == k@ {
                    None
                } else {
                    filed(s, q)
                }) by {
                    if q == k@ {
                        assert forall|j: int| 0 <= j < t.len() implies (#[trigger] t[j]).0@ != q by {
                            let j2 = if j < i { j } else { j + 1 };
                            assert(t[j] == s[j2]);
                            if j2 < i {
                                assert(text_before(s[j2].0@, s[i as int].0@));
                            } else {
                                assert(text_before(s[i as int].0@, s[j2].0@));
                            }
                            lemma_text_before_irreflexive(q);
                        }
                        lemma_filed_none(t, q);
                    } else if filed(s, q) is Some {
                        lemma_filed_some(s, q);
                        let j = choose|j: int|
                            0 <= j < s.len() && (#[trigger] s[j]).0@ == q && filed(s, q) == Some(
                                s[j].1,
                            );
                        assert(j != i);
                        let j2 = if j < i { j } else { j - 1 };
                        assert(t[j2] == s[j]);
                        lemma_filed_at(t, j2);
                    } else {
                        assert forall|j: int| 0 <= j < t.len() implies (#[trigger] t[j]).0@ != q by {
                            let j2 = if j < i { j } else { j + 1 };
                            assert(t[j] == s[j2]);
                            if s[j2].0@ == q {
                                lemma_filed_at(s, j2);
                            }
                        }
                        lemma_filed_none(t, q);
                    }
                }
                assert(filing(t) =~= filing(s).remove(k@));
            }
            Some(x)
        },
        None => {
            proof {
                assert(filing(v@) =~= filing(v@).remove(k@));
            }
            None
        },
    }
}

/// Files `x` under `k`, in its place by name, over whatever was filed there.
pub fn file_under<T>(v: &mut Vec<(String, T)>, k: String, x: T)
    requires
        keys_sorted(old(v)@),
    ensures
        final(v)@ == placed(old(v)@, k, x),
        keys_sorted(final(v)@),
{
    let mut i: usize = 0;
    while i < v.len()
        invariant
            i <= v.len(),
            forall|j: int| 0 <= j < i ==> text_before(#[trigger] v@[j].0@, k@),
        ensures
            i <= v.len(),
            forall|j: int| 0 <= j < i ==> text_before(#[trigger] v@[j].0@, k@),
            i < v.len() ==> !text_before(v@[i as int].0@, k@),
        decreases v.len() - i,
    {
        if compare_text(v[i].0.as_str(), k.as_str()) >= 0 {
            break;
        }
        i = i + 1;
    }
    proof {
        lemma_placed_at(v@, k, x, i as int);
        lemma_placed_sorted(v@, k, x);
    }
    if i < v.len() && same_text(v[i].0.as_str(), k.as_str()) {
        let ghost before = v@;
        v.set(i, (k, x));
        assert(v@ =~= before.take(i as int) + seq![(k, x)] + before.skip(i + 1));
    } else {
        let ghost before = v@;
        v.insert(i, (k, x));
        assert(v@ =~= before.take(i as int) + seq![(k, x)] + before.skip(i as int));
    }
}

/// Where `k` is filed, if it is.
pub fn find_filed<T>(v: &Vec<(String, T)>, k: &str) -> (r: Option<usize>)
    ensures
        match r {
            Some(i) => i < v@.len() && v@[i as int].0@ == k@ && filed(v@, k@) == Some(v@[i as int].1),
            None => filed(v@, k@) is None,
        },
{
    let mut i: usize = 0;
    assert(v@.skip(0) =~= v@);
    while i < v.len()
        invariant
            i <= v.len(),
            filed(v@, k@) == filed(v@.skip(i as int), k@),
        decreases v.len() - i,
    {
        assert(v@.skip(i as int).drop_first() =~= v@.skip(i + 1));
        if same_text(v[i].0.as_str(), k) {
            assert(v@.skip(i as int)[0] == v@[i as int]);
            return Some(i);
        }
        i = i + 1;
    }
    None
}

} // verus!

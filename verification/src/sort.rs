//! Deterministic, stable sorting of the dependency collection by name and
//! version. The executable sort returns exactly the sequence that the spec
//! function `sort_spec` describes, and the lemmas at the end state that this
//! sequence is sorted, a permutation of the input, and stable: for any one
//! package identity the records keep their input order.

use vstd::prelude::*;
use vstd::seq_lib::lemma_multiset_commutative;

use crate::data::{dep_le, Dependency, Version};
use crate::text::{lex_lt, str_eq, str_lt};

verus! {

/// Lexicographic order is transitive.
pub proof fn lemma_lex_trans(a: Seq<char>, b: Seq<char>, c: Seq<char>)
    requires
        lex_lt(a, b),
        lex_lt(b, c),
    ensures
        lex_lt(a, c),
    decreases a.len(),
{
    if c.len() == 0 || b.len() == 0 || a.len() == 0 {
    } else if a[0] == b[0] && b[0] == c[0] {
        lemma_lex_trans(a.drop_first(), b.drop_first(), c.drop_first());
    }
}

/// Lexicographic order is total: two sequences are ordered one way or the
/// other, or they are equal.
pub proof fn lemma_lex_total(a: Seq<char>, b: Seq<char>)
    ensures
        lex_lt(a, b) || lex_lt(b, a) || a == b,
    decreases a.len(),
{
    if a.len() == 0 && b.len() == 0 {
        assert(a =~= b);
    } else if a.len() > 0 && b.len() > 0 {
        if a[0] != b[0] {
            vstd::utf8::char_u32_cast(a[0], a[0] as u32);
            vstd::utf8::char_u32_cast(b[0], b[0] as u32);
            assert((a[0] as u32) != (b[0] as u32));
        } else {
            lemma_lex_total(a.drop_first(), b.drop_first());
            if a.drop_first() == b.drop_first() {
                assert(a.drop_first().len() == a.len() - 1);
                assert(b.drop_first().len() == b.len() - 1);
                assert(a.len() == b.len());
                assert forall|i: int| 0 <= i < a.len() implies a[i] == b[i] by {
                    if i > 0 {
                        assert(a[i] == a.drop_first()[i - 1]);
                        assert(b[i] == b.drop_first()[i - 1]);
                    }
                }
                assert(a =~= b);
            }
        }
    }
}

/// Lexicographic order is asymmetric.
pub proof fn lemma_lex_asym(a: Seq<char>, b: Seq<char>)
    requires
        lex_lt(a, b),
    ensures
        !lex_lt(b, a),
    decreases a.len(),
{
    if a.len() > 0 && b.len() > 0 && a[0] == b[0] {
        lemma_lex_asym(a.drop_first(), b.drop_first());
    }
}

/// The report order is total: any two dependencies are comparable.
pub proof fn lemma_dep_le_total(a: Dependency, b: Dependency)
    ensures
        dep_le(a, b) || dep_le(b, a),
{
    lemma_lex_total(a.name@, b.name@);
}

/// The report order is transitive.
pub proof fn lemma_dep_le_trans(a: Dependency, b: Dependency, c: Dependency)
    requires
        dep_le(a, b),
        dep_le(b, c),
    ensures
        dep_le(a, c),
{
    if lex_lt(a.name@, b.name@) && lex_lt(b.name@, c.name@) {
        lemma_lex_trans(a.name@, b.name@, c.name@);
    }
}

/// Two dependencies ordered both ways share one package identity.
pub proof fn lemma_dep_le_antisym(a: Dependency, b: Dependency)
    requires
        dep_le(a, b),
        dep_le(b, a),
    ensures
        a.name@ == b.name@,
        a.version == b.version,
{
    if lex_lt(a.name@, b.name@) {
        lemma_lex_asym(a.name@, b.name@);
    } else if lex_lt(b.name@, a.name@) {
        lemma_lex_asym(b.name@, a.name@);
    }
}

/// Compares two dependencies in report order: by name, then by version.
pub fn dep_le_exec(a: &Dependency, b: &Dependency) -> (r: bool)
    ensures
        r == dep_le(*a, *b),
{
    if str_lt(a.name.as_str(), b.name.as_str()) {
        true
    } else if str_eq(a.name.as_str(), b.name.as_str()) {
        a.version.lt(&b.version) || (a.version.major == b.version.major && a.version.minor
            == b.version.minor && a.version.patch == b.version.patch)
    } else {
        false
    }
}

/// Inserts `d` into `s` after every element that precedes it or ties with it,
/// so that an already sorted `s` stays sorted and equal keys keep their
/// arrival order.
pub open spec fn insert_sorted(s: Seq<Dependency>, d: Dependency) -> Seq<Dependency>
    decreases s.len(),
{
    if s.len() == 0 {
        seq![d]
    } else if dep_le(s[0], d) {
        seq![s[0]] + insert_sorted(s.drop_first(), d)
    } else {
        seq![d] + s
    }
}

/// The sorted permutation of `s`: each element in turn inserted into the
/// sorted prefix.
pub open spec fn sort_spec(s: Seq<Dependency>) -> Seq<Dependency>
    decreases s.len(),
{
    if s.len() == 0 {
        s
    } else {
        insert_sorted(sort_spec(s.drop_last()), s.last())
    }
}

/// Whether a sequence is sorted in report order.
pub open spec fn sorted(s: Seq<Dependency>) -> bool {
    forall|i: int, j: int| 0 <= i < j < s.len() ==> dep_le(s[i], s[j])
}

proof fn lemma_insert_sorted_props(s: Seq<Dependency>, d: Dependency)
    requires
        sorted(s),
    ensures
        sorted(insert_sorted(s, d)),
        insert_sorted(s, d).to_multiset() == s.to_multiset().insert(d),
        insert_sorted(s, d).len() == s.len() + 1,
    decreases s.len(),
{
    broadcast use vstd::seq_lib::group_to_multiset_ensures;

    let r = insert_sorted(s, d);
    if s.len() == 0 {
        assert(seq![d] =~= Seq::<Dependency>::empty().push(d));
        assert(r.to_multiset() =~= s.to_multiset().insert(d));
    } else if dep_le(s[0], d) {
        let rest = s.drop_first();
        assert(sorted(rest));
        lemma_insert_sorted_props(rest, d);
        let ri = insert_sorted(rest, d);
        // every element of the inserted tail is above s[0]
        assert forall|k: int| 0 <= k < ri.len() implies dep_le(s[0], ri[k]) by {
            assert(ri.to_multiset().count(ri[k]) > 0);
            if ri[k] == d {
                assert(dep_le(s[0], d));
            } else {
                assert(rest.to_multiset().count(ri[k]) > 0);
                assert(rest.contains(ri[k]));
                let j = choose|j: int| 0 <= j < rest.len() && rest[j] == ri[k];
                assert(dep_le(s[0], rest[j]));
            }
        }
        assert(sorted(r)) by {
            assert forall|i: int, j: int| 0 <= i < j < r.len() implies dep_le(r[i], r[j]) by {
                if i == 0 {
                    assert(r[j] == ri[j - 1]);
                } else {
                    assert(r[i] == ri[i - 1] && r[j] == ri[j - 1]);
                }
            }
        }
        lemma_multiset_commutative(seq![s[0]], ri);
        assert(seq![s[0]] + rest =~= s);
        lemma_multiset_commutative(seq![s[0]], rest);
        assert(r.to_multiset() =~= s.to_multiset().insert(d));
    } else {
        lemma_dep_le_total(s[0], d);
        assert(dep_le(d, s[0]));
        assert(sorted(r)) by {
            assert forall|i: int, j: int| 0 <= i < j < r.len() implies dep_le(r[i], r[j]) by {
                if i == 0 {
                    if j == 1 {
                        assert(r[j] == s[0]);
                    } else {
                        assert(dep_le(s[0], s[j - 1]));
                        lemma_dep_le_trans(d, s[0], s[j - 1]);
                    }
                } else {
                    if i == 1 {
                        assert(r[i] == s[0]);
                        assert(r[j] == s[j - 1]);
                        assert(dep_le(s[0], s[j - 1]));
                    } else {
                        assert(r[i] == s[i - 1] && r[j] == s[j - 1]);
                    }
                }
            }
        }
        lemma_multiset_commutative(seq![d], s);
        assert(seq![d] =~= Seq::<Dependency>::empty().push(d));
        assert(r.to_multiset() =~= s.to_multiset().insert(d));
    }
}

/// The sorted permutation is sorted, has the input's length, and holds
/// exactly the input's records, multiplicity included.
pub proof fn lemma_sort_spec_props(s: Seq<Dependency>)
    ensures
        sorted(sort_spec(s)),
        sort_spec(s).to_multiset() == s.to_multiset(),
        sort_spec(s).len() == s.len(),
    decreases s.len(),
{
    broadcast use vstd::seq_lib::group_to_multiset_ensures;

    if s.len() > 0 {
        let init = s.drop_last();
        lemma_sort_spec_props(init);
        lemma_insert_sorted_props(sort_spec(init), s.last());
        assert(init.push(s.last()) =~= s);
        assert(sort_spec(s).to_multiset() =~= s.to_multiset());
    }
}

/// The records of `s` that carry the given package identity, in order.
pub open spec fn with_key(s: Seq<Dependency>, name: Seq<char>, v: Version) -> Seq<Dependency>
    decreases s.len(),
{
    if s.len() == 0 {
        Seq::empty()
    } else {
        let rest = with_key(s.drop_first(), name, v);
        if s[0].name@ == name && s[0].version == v {
            seq![s[0]] + rest
        } else {
            rest
        }
    }
}

proof fn lemma_with_key_push(s: Seq<Dependency>, d: Dependency, name: Seq<char>, v: Version)
    ensures
        with_key(s.push(d), name, v) == (if d.name@ == name && d.version == v {
            with_key(s, name, v).push(d)
        } else {
            with_key(s, name, v)
        }),
    decreases s.len(),
{
    if s.len() == 0 {
        assert(s.push(d).drop_first() =~= Seq::<Dependency>::empty());
        assert(s.push(d)[0] == d);
        assert(with_key(s.push(d).drop_first(), name, v) == Seq::<Dependency>::empty());
        if d.name@ == name && d.version == v {
            assert(with_key(s.push(d), name, v) == seq![d] + Seq::<Dependency>::empty());
            assert(with_key(s.push(d), name, v) =~= with_key(s, name, v).push(d));
        }
    } else {
        assert(s.push(d).drop_first() =~= s.drop_first().push(d));
        assert(s.push(d)[0] == s[0]);
        lemma_with_key_push(s.drop_first(), d, name, v);
        if d.name@ == name && d.version == v {
            if s[0].name@ == name && s[0].version == v {
                assert(with_key(s.push(d), name, v) =~= with_key(s, name, v).push(d));
            } else {
                assert(with_key(s.push(d), name, v) =~= with_key(s, name, v).push(d));
            }
        } else {
            if s[0].name@ == name && s[0].version == v {
                assert(with_key(s.push(d), name, v) =~= with_key(s, name, v));
            }
        }
    }
}

proof fn lemma_with_key_none(s: Seq<Dependency>, d: Dependency)
    requires
        sorted(s),
        s.len() > 0 ==> !dep_le(s[0], d),
    ensures
        with_key(s, d.name@, d.version).len() == 0,
    decreases s.len(),
{
    if s.len() > 0 {
        assert(!(s[0].name@ == d.name@ && s[0].version == d.version));
        let rest = s.drop_first();
        assert(sorted(rest));
        if rest.len() > 0 {
            assert(dep_le(s[0], s[1]));
            if dep_le(rest[0], d) {
                lemma_dep_le_trans(s[0], rest[0], d);
            }
        }
        lemma_with_key_none(rest, d);
    }
}

proof fn lemma_insert_stable(s: Seq<Dependency>, d: Dependency, name: Seq<char>, v: Version)
    requires
        sorted(s),
    ensures
        with_key(insert_sorted(s, d), name, v) == (if d.name@ == name && d.version == v {
            with_key(s, name, v).push(d)
        } else {
            with_key(s, name, v)
        }),
    decreases s.len(),
{
    let r = insert_sorted(s, d);
    if s.len() == 0 {
        assert(r == seq![d]);
        assert(r[0] == d);
        assert(r.drop_first() =~= Seq::<Dependency>::empty());
        assert(with_key(r.drop_first(), name, v) == Seq::<Dependency>::empty());
        if d.name@ == name && d.version == v {
            assert(with_key(r, name, v) == seq![d] + Seq::<Dependency>::empty());
            assert(with_key(r, name, v) =~= with_key(s, name, v).push(d));
        } else {
            assert(with_key(r, name, v) =~= with_key(s, name, v));
        }
    } else if dep_le(s[0], d) {
        let rest = s.drop_first();
        assert(sorted(rest));
        lemma_insert_stable(rest, d, name, v);
        let ri = insert_sorted(rest, d);
        assert(r == seq![s[0]] + ri);
        assert(r[0] == s[0]);
        assert(r.drop_first() =~= ri);
        assert(with_key(r.drop_first(), name, v) == with_key(ri, name, v));
        if d.name@ == name && d.version == v {
            assert(with_key(ri, name, v) == with_key(rest, name, v).push(d));
            if s[0].name@ == name && s[0].version == v {
                assert(with_key(r, name, v) == seq![s[0]] + with_key(rest, name, v).push(d));
                assert(with_key(s, name, v) == seq![s[0]] + with_key(rest, name, v));
                assert(with_key(r, name, v) =~= with_key(s, name, v).push(d));
            } else {
                assert(with_key(r, name, v) == with_key(rest, name, v).push(d));
                assert(with_key(s, name, v) == with_key(rest, name, v));
            }
        } else {
            assert(with_key(ri, name, v) == with_key(rest, name, v));
            if s[0].name@ == name && s[0].version == v {
                assert(with_key(r, name, v) == seq![s[0]] + with_key(rest, name, v));
                assert(with_key(s, name, v) == seq![s[0]] + with_key(rest, name, v));
            }
        }
    } else {
        assert(r == seq![d] + s);
        assert(r[0] == d);
        assert(r.drop_first() =~= s);
        if d.name@ == name && d.version == v {
            lemma_with_key_none(s, d);
            assert(with_key(s, name, v).len() == 0);
            assert(with_key(r, name, v) =~= with_key(s, name, v).push(d));
        }
    }
}

/// Sorting is stable: for any one package identity, the records that carry it
/// appear in the output exactly as they appeared in the input.
pub proof fn lemma_sort_stable(s: Seq<Dependency>, name: Seq<char>, v: Version)
    ensures
        with_key(sort_spec(s), name, v) == with_key(s, name, v),
    decreases s.len(),
{
    if s.len() > 0 {
        let init = s.drop_last();
        lemma_sort_stable(init, name, v);
        lemma_sort_spec_props(init);
        lemma_insert_stable(sort_spec(init), s.last(), name, v);
        assert(init.push(s.last()) =~= s);
        lemma_with_key_push(init, s.last(), name, v);
    }
}

/// Inserts one dependency into an already sorted collection, after every
/// element that precedes or ties with it.
fn insert_dep(sorted_v: Vec<Dependency>, d: Dependency) -> (r: Vec<Dependency>)
    ensures
        r@ == insert_sorted(sorted_v@, d),
{
    let ghost s = sorted_v@;
    let mut out: Vec<Dependency> = Vec::new();
    let mut i: usize = 0;
    while i < sorted_v.len() && dep_le_exec(&sorted_v[i], &d)
        invariant
            i <= s.len(),
            s == sorted_v@,
            out@ == s.take(i as int),
            forall|j: int| 0 <= j < i ==> dep_le(#[trigger] s[j], d),
        decreases s.len() - i,
    {
        out.push(sorted_v[i].duplicate());
        i = i + 1;
    }
    let ghost k = i as int;
    proof {
        lemma_insert_split(s, d, k);
    }
    out.push(d);
    assert(out@ =~= s.take(k) + seq![d] + s.subrange(k, k));
    let mut j: usize = i;
    while j < sorted_v.len()
        invariant
            0 <= k <= j <= s.len(),
            s == sorted_v@,
            out@ == s.take(k) + seq![d] + s.subrange(k, j as int),
        decreases s.len() - j,
    {
        out.push(sorted_v[j].duplicate());
        assert(s.subrange(k, j + 1) =~= s.subrange(k, j as int).push(s[j as int]));
        assert(s.take(k) + seq![d] + s.subrange(k, j + 1) =~= (s.take(k) + seq![d] + s.subrange(
            k,
            j as int,
        )).push(s[j as int]));
        assert(out@ =~= s.take(k) + seq![d] + s.subrange(k, j + 1));
        j = j + 1;
    }
    assert(out@ =~= s.take(k) + (seq![d] + s.skip(k)));
    out
}

proof fn lemma_insert_split(s: Seq<Dependency>, d: Dependency, k: int)
    requires
        0 <= k <= s.len(),
        forall|j: int| 0 <= j < k ==> dep_le(#[trigger] s[j], d),
        k < s.len() ==> !dep_le(s[k], d),
    ensures
        insert_sorted(s, d) == s.take(k) + seq![d] + s.skip(k),
    decreases k,
{
    if k == 0 {
        if s.len() == 0 {
            assert(insert_sorted(s, d) =~= s.take(0) + seq![d] + s.skip(0));
        } else {
            assert(insert_sorted(s, d) == seq![d] + s);
            assert(insert_sorted(s, d) =~= s.take(0) + seq![d] + s.skip(0));
        }
    } else {
        let rest = s.drop_first();
        assert(dep_le(s[0], d));
        assert(forall|j: int| 0 <= j < k - 1 ==> dep_le(#[trigger] rest[j], d));
        assert(k - 1 < rest.len() ==> !dep_le(rest[k - 1], d));
        lemma_insert_split(rest, d, k - 1);
        assert(insert_sorted(s, d) == seq![s[0]] + insert_sorted(rest, d));
        assert(seq![s[0]] + (rest.take(k - 1) + seq![d] + rest.skip(k - 1)) =~= s.take(k) + seq![d]
            + s.skip(k));
    }
}

/// Sorts the dependencies by name, then version, stably: the result is
/// exactly the sequence that `sort_spec` describes.
pub fn sort_dependencies(deps: &Vec<Dependency>) -> (r: Vec<Dependency>)
    ensures
        r@ == sort_spec(deps@),
        sorted(r@),
        r@.to_multiset() == deps@.to_multiset(),
        r@.len() == deps@.len(),
{
    let mut out: Vec<Dependency> = Vec::new();
    let mut i: usize = 0;
    while i < deps.len()
        invariant
            i <= deps.len(),
            out@ == sort_spec(deps@.take(i as int)),
        decreases deps.len() - i,
    {
        assert(deps@.take(i + 1).drop_last() =~= deps@.take(i as int));
        assert(deps@.take(i + 1).last() == deps@[i as int]);
        out = insert_dep(out, deps[i].duplicate());
        i = i + 1;
    }
    assert(deps@.take(deps@.len() as int) =~= deps@);
    proof {
        lemma_sort_spec_props(deps@);
    }
    out
}

} // verus!


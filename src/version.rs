//! Ordering of version strings and the "latest version" derivation.
//!
//! Version strings are ordered the way `str`'s `Ord` orders them: character by
//! character, and a proper prefix comes first.
use vstd::prelude::*;

verus! {

/// Strict lexicographic order on character sequences.
pub open spec fn chars_lt(a: Seq<char>, b: Seq<char>) -> bool
    decreases a.len(),
{
    if a.len() == 0 {
        b.len() > 0
    } else if b.len() == 0 {
        false
    } else if a[0] != b[0] {
        (a[0] as int) < (b[0] as int)
    } else {
        chars_lt(a.drop_first(), b.drop_first())
    }
}

/// `r` is the greatest element of `s` under `chars_lt`.
pub open spec fn is_greatest(s: Seq<Seq<char>>, r: Seq<char>) -> bool {
    &&& s.contains(r)
    &&& forall|j: int| 0 <= j < s.len() ==> !chars_lt(r, #[trigger] s[j])
}

/// The views of a list of strings.
pub open spec fn views(v: Seq<String>) -> Seq<Seq<char>> {
    v.map_values(|s: String| s@)
}

pub proof fn lemma_lt_irreflexive(a: Seq<char>)
    ensures
        !chars_lt(a, a),
    decreases a.len(),
{
    if a.len() > 0 {
        lemma_lt_irreflexive(a.drop_first());
    }
}

pub proof fn lemma_lt_transitive(a: Seq<char>, b: Seq<char>, c: Seq<char>)
    requires
        chars_lt(a, b),
        chars_lt(b, c),
    ensures
        chars_lt(a, c),
    decreases a.len(),
{
    if a.len() > 0 && b.len() > 0 && c.len() > 0 && a[0] == b[0] && b[0] == c[0] {
        lemma_lt_transitive(a.drop_first(), b.drop_first(), c.drop_first());
    }
}

pub proof fn lemma_lt_total(a: Seq<char>, b: Seq<char>)
    requires
        a != b,
    ensures
        chars_lt(a, b) || chars_lt(b, a),
    decreases a.len(),
{
    if a.len() > 0 && b.len() > 0 && a[0] != b[0] {
        assert((a[0] as int) != (b[0] as int));
    } else if a.len() > 0 && b.len() > 0 && a[0] == b[0] {
        if a.drop_first() == b.drop_first() {
            assert(a =~= seq![a[0]] + a.drop_first());
            assert(b =~= seq![b[0]] + b.drop_first());
        }
        lemma_lt_total(a.drop_first(), b.drop_first());
    } else if a.len() == 0 && b.len() == 0 {
        assert(a =~= b);
    }
}

/// The greatest element of a sequence is unique.
pub proof fn lemma_greatest_unique(s: Seq<Seq<char>>, r1: Seq<char>, r2: Seq<char>)
    requires
        is_greatest(s, r1),
        is_greatest(s, r2),
    ensures
        r1 == r2,
{
    if r1 != r2 {
        let i1 = choose|i: int| 0 <= i < s.len() && s[i] == r1;
        let i2 = choose|i: int| 0 <= i < s.len() && s[i] == r2;
        assert(!chars_lt(r1, s[i2]));
        assert(!chars_lt(r2, s[i1]));
        lemma_lt_total(r1, r2);
    }
}

/// Compares two version strings under `chars_lt`.
pub fn version_lt(a: &String, b: &String) -> (r: bool)
    ensures
        r == chars_lt(a@, b@),
{
    let sa = a.as_str();
    let sb = b.as_str();
    let la = sa.unicode_len();
    let lb = sb.unicode_len();
    let mut i: usize = 0;
    assert(a@.skip(0) =~= a@);
    assert(b@.skip(0) =~= b@);
    while i < la && i < lb
        invariant
            la == a@.len(),
            lb == b@.len(),
            sa@ == a@,
            sb@ == b@,
            i <= la,
            i <= lb,
            chars_lt(a@, b@) == chars_lt(a@.skip(i as int), b@.skip(i as int)),
        decreases la - i,
    {
        let ca = sa.get_char(i);
        let cb = sb.get_char(i);
        assert(a@.skip(i as int)[0] == ca);
        assert(b@.skip(i as int)[0] == cb);
        if ca != cb {
            return (ca as u32) < (cb as u32);
        }
        assert(a@.skip(i as int).drop_first() =~= a@.skip(i + 1));
        assert(b@.skip(i as int).drop_first() =~= b@.skip(i + 1));
        i = i + 1;
    }
    i == la && i < lb
}

/// The latest version among `versions`: the last element once the list is
/// sorted ascending and duplicates are removed, that is its greatest element.
/// `None` when the list is empty.
pub fn latest_version(versions: &Vec<String>) -> (r: Option<String>)
    ensures
        versions@.len() == 0 <==> r is None,
        r matches Some(v) ==> is_greatest(views(versions@), v@),
{
    if versions.len() == 0 {
        return None;
    }
    let mut best: usize = 0;
    let mut i: usize = 1;
    proof {
        lemma_lt_irreflexive(versions@[0]@);
    }
    while i < versions.len()
        invariant
            1 <= i <= versions@.len(),
            best < i,
            forall|j: int| 0 <= j < i ==> !chars_lt(versions@[best as int]@, #[trigger] versions@[j]@),
        decreases versions@.len() - i,
    {
        if version_lt(&versions[best], &versions[i]) {
            proof {
                assert forall|j: int| 0 <= j < i + 1 implies !chars_lt(versions@[i as int]@, #[trigger] versions@[j]@) by {
                    if j < i && chars_lt(versions@[i as int]@, versions@[j]@) {
                        lemma_lt_transitive(versions@[best as int]@, versions@[i as int]@, versions@[j]@);
                    }
                    if j == i {
                        lemma_lt_irreflexive(versions@[i as int]@);
                    }
                }
            }
            best = i;
        }
        i = i + 1;
    }
    let r = versions[best].clone();
    proof {
        let s = views(versions@);
        assert(s[best as int] == r@);
        assert forall|j: int| 0 <= j < s.len() implies !chars_lt(r@, #[trigger] s[j]) by {
            assert(s[j] == versions@[j]@);
        }
    }
    Some(r)
}

} // verus!

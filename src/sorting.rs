//! Natural ("human") ordering of names: track2 before track10.

use vstd::prelude::*;

verus! {

/// The sign of `natord::compare(a, b)`: negative, zero or positive.
pub uninterp spec fn natord_cmp(a: Seq<char>, b: Seq<char>) -> int;

/// Relies on `natord::compare`: a comparison in natural order, depending on
/// the two texts alone; its `Ordering` is turned into -1, 0 or 1.
#[verifier::external_body]
fn natural_compare(a: &str, b: &str) -> (r: i8)
    ensures
        r as int == natord_cmp(a@, b@),
{
    match natord::compare(a, b) {
        std::cmp::Ordering::Less => -1,
        std::cmp::Ordering::Equal => 0,
        std::cmp::Ordering::Greater => 1,
    }
}

/// The texts of a list of strings.
pub open spec fn texts_of(v: Seq<String>) -> Seq<Seq<char>> {
    v.map_values(|s: String| s@)
}

/// `x` inserted into `s` after every element it does not come before.
pub open spec fn insert_natural(s: Seq<Seq<char>>, x: Seq<char>) -> Seq<Seq<char>>
    decreases s.len(),
{
    if s.len() == 0 {
        seq![x]
    } else if natord_cmp(x, s.last()) < 0 {
        insert_natural(s.drop_last(), x).push(s.last())
    } else {
        s.push(x)
    }
}

/// `s` in natural order: a stable insertion sort by [`natord_cmp`].
pub open spec fn natural_sorted(s: Seq<Seq<char>>) -> Seq<Seq<char>>
    decreases s.len(),
{
    if s.len() == 0 {
        Seq::empty()
    } else {
        insert_natural(natural_sorted(s.drop_last()), s.last())
    }
}

proof fn lemma_insert_at(s: Seq<Seq<char>>, x: Seq<char>, j: int)
    requires
        0 <= j <= s.len(),
        forall|k: int| j <= k < s.len() ==> natord_cmp(x, #[trigger] s[k]) < 0,
        j > 0 ==> natord_cmp(x, s[j - 1]) >= 0,
    ensures
        insert_natural(s, x) == s.subrange(0, j) + seq![x] + s.subrange(j, s.len() as int),
    decreases s.len(),
{
    if s.len() == j {
        assert(s.subrange(0, j) =~= s);
        assert(s.subrange(j, s.len() as int) =~= Seq::<Seq<char>>::empty());
        if s.len() > 0 {
            assert(s.last() == s[j - 1]);
        }
        assert(insert_natural(s, x) =~= s.subrange(0, j) + seq![x] + s.subrange(j, s.len() as int));
    } else {
        let d = s.drop_last();
        assert(natord_cmp(x, s[s.len() - 1]) < 0);
        assert forall|k: int| j <= k < d.len() implies natord_cmp(x, #[trigger] d[k]) < 0 by {
            assert(d[k] == s[k]);
        }
        if j > 0 {
            assert(d[j - 1] == s[j - 1]);
        }
        lemma_insert_at(d, x, j);
        assert(insert_natural(s, x) =~= s.subrange(0, j) + seq![x] + s.subrange(j, s.len() as int));
    }
}

fn clone_range(v: &Vec<String>, from: usize, to: usize, out: &mut Vec<String>)
    requires
        from <= to <= v@.len(),
    ensures
        texts_of(final(out)@) == texts_of(old(out)@) + texts_of(v@).subrange(from as int, to as int),
{
    let ghost start = texts_of(out@);
    let mut i: usize = from;
    while i < to
        invariant
            from <= i <= to,
            to <= v@.len(),
            texts_of(out@) == start + texts_of(v@).subrange(from as int, i as int),
        decreases to - i,
    {
        let c = v[i].clone();
        assert(texts_of(v@)[i as int] == c@);
        let ghost before = out@;
        out.push(c);
        assert(texts_of(out@) =~= texts_of(before).push(c@));
        i = i + 1;
        assert(texts_of(out@) =~= start + texts_of(v@).subrange(from as int, i as int));
    }
}

fn insert_exec(sorted: &Vec<String>, x: &String) -> (r: Vec<String>)
    ensures
        texts_of(r@) == insert_natural(texts_of(sorted@), x@),
{
    let ghost s = texts_of(sorted@);
    let mut j: usize = sorted.len();
    let mut found = false;
    while j > 0 && !found
        invariant
            j <= sorted@.len(),
            s == texts_of(sorted@),
            forall|k: int| j <= k < s.len() ==> natord_cmp(x@, #[trigger] s[k]) < 0,
            found ==> j > 0 && natord_cmp(x@, s[j - 1]) >= 0,
        decreases j + if found { 0int } else { 1int },
    {
        if natural_compare(x.as_str(), sorted[j - 1].as_str()) >= 0 {
            found = true;
        } else {
            j = j - 1;
        }
    }
    proof {
        lemma_insert_at(s, x@, j as int);
    }
    let mut out: Vec<String> = Vec::new();
    clone_range(sorted, 0, j, &mut out);
    let ghost mid = texts_of(out@);
    out.push(x.clone());
    assert(texts_of(out@) =~= mid.push(x@));
    clone_range(sorted, j, sorted.len(), &mut out);
    assert(texts_of(out@) =~= s.subrange(0, j as int) + seq![x@] + s.subrange(j as int, s.len() as int));
    out
}

/// Sorts `paths` in natural order (see [`natural_sorted`]).
pub fn natural_sort(paths: &mut Vec<String>)
    ensures
        texts_of(final(paths)@) == natural_sorted(texts_of(old(paths)@)),
{
    let ghost s = texts_of(paths@);
    let mut out: Vec<String> = Vec::new();
    let mut i: usize = 0;
    while i < paths.len()
        invariant
            i <= paths@.len(),
            s == texts_of(paths@),
            texts_of(out@) == natural_sorted(s.subrange(0, i as int)),
        decreases paths@.len() - i,
    {
        assert(s.subrange(0, i + 1).drop_last() =~= s.subrange(0, i as int));
        out = insert_exec(&out, &paths[i]);
        i = i + 1;
    }
    assert(s.subrange(0, i as int) =~= s);
    *paths = out;
}

/// Sorts strings in natural order.
pub fn natural_sort_strings(strings: &mut Vec<String>)
    ensures
        texts_of(final(strings)@) == natural_sorted(texts_of(old(strings)@)),
{
    natural_sort(strings)
}

} // verus!

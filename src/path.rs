//! Slash-separated paths held as text: the final component, the parent, the
//! stem and the extension, and joining.

use vstd::prelude::*;
use crate::text::{chars_of, string_of};

verus! {

/// `i` is the position of the last `c` in `s`, or -1 when `s` holds no `c`.
pub open spec fn is_last_index(s: Seq<char>, c: char, i: int) -> bool {
    &&& -1 <= i < s.len()
    &&& i >= 0 ==> s[i] == c
    &&& forall|j: int| i < j < s.len() ==> s[j] != c
}

/// The position of the last `c` in `s`, or -1 when there is none.
pub open spec fn last_index(s: Seq<char>, c: char) -> int {
    choose|i: int| is_last_index(s, c, i)
}

/// The last index exists and is unique.
pub proof fn lemma_last_index(s: Seq<char>, c: char, i: int)
    requires
        is_last_index(s, c, i),
    ensures
        last_index(s, c) == i,
{
    let k = last_index(s, c);
    assert(is_last_index(s, c, k));
    if k < i {
        assert(s[i] == c);
    } else if i < k {
        assert(s[k] == c);
    }
}

/// The final component of a path: what follows its last slash.
pub open spec fn file_name_of(p: Seq<char>) -> Seq<char> {
    p.subrange(last_index(p, '/') + 1, p.len() as int)
}

/// The parent of a path: what precedes its last slash ("/" for a component
/// right under the root, empty when there is no slash).
pub open spec fn parent_of(p: Seq<char>) -> Seq<char> {
    let k = last_index(p, '/');
    if k < 0 {
        Seq::empty()
    } else if k == 0 {
        seq!['/']
    } else {
        p.subrange(0, k)
    }
}

/// A file name without its extension. A leading dot starts no extension.
pub open spec fn stem_of(name: Seq<char>) -> Seq<char> {
    let k = last_index(name, '.');
    if k <= 0 {
        name
    } else {
        name.subrange(0, k)
    }
}

/// The extension of a file name, if it has one.
pub open spec fn extension_of(name: Seq<char>) -> Option<Seq<char>> {
    let k = last_index(name, '.');
    if k <= 0 {
        None
    } else {
        Some(name.subrange(k + 1, name.len() as int))
    }
}

/// `dir` and `name` joined by a slash (none is added when `dir` is empty or
/// already ends with one).
pub open spec fn join_of(dir: Seq<char>, name: Seq<char>) -> Seq<char> {
    if dir.len() == 0 {
        name
    } else if dir.last() == '/' {
        dir + name
    } else {
        dir.push('/') + name
    }
}

/// The position of the last `c` in `v`, or -1.
pub fn last_index_exec(v: &Vec<char>, c: char) -> (r: Option<usize>)
    ensures
        last_index(v@, c) == match r {
            Some(i) => i as int,
            None => -1,
        },
        is_last_index(v@, c, last_index(v@, c)),
{
    let mut i: usize = v.len();
    while i > 0
        invariant
            i <= v@.len(),
            forall|j: int| i <= j < v@.len() ==> v@[j] != c,
        decreases i,
    {
        if v[i - 1] == c {
            proof {
                lemma_last_index(v@, c, i - 1);
            }
            return Some(i - 1);
        }
        i = i - 1;
    }
    proof {
        lemma_last_index(v@, c, -1);
    }
    None
}

/// The characters of `v` from `from` up to `to`.
pub fn slice_chars(v: &Vec<char>, from: usize, to: usize) -> (r: Vec<char>)
    requires
        from <= to <= v@.len(),
    ensures
        r@ == v@.subrange(from as int, to as int),
{
    let mut out: Vec<char> = Vec::new();
    let mut i: usize = from;
    while i < to
        invariant
            from <= i <= to,
            to <= v@.len(),
            out@ == v@.subrange(from as int, i as int),
        decreases to - i,
    {
        out.push(v[i]);
        i = i + 1;
        assert(out@ =~= v@.subrange(from as int, i as int));
    }
    out
}

/// The final component of `path`.
pub fn file_name(path: &str) -> (r: String)
    ensures
        r@ == file_name_of(path@),
{
    let v = chars_of(path);
    let from = match last_index_exec(&v, '/') {
        Some(k) => k + 1,
        None => 0,
    };
    let part = slice_chars(&v, from, v.len());
    string_of(&part)
}

/// The parent directory of `path`.
pub fn parent(path: &str) -> (r: String)
    ensures
        r@ == parent_of(path@),
{
    let v = chars_of(path);
    let k: usize = match last_index_exec(&v, '/') {
        Some(k) => k,
        None => {
            return String::new();
        },
    };
    if k == 0 {
        proof {
            reveal_strlit("/");
        }
        let r = "/".to_owned();
        assert(r@ =~= seq!['/']);
        r
    } else {
        let part = slice_chars(&v, 0, k);
        string_of(&part)
    }
}

/// The stem of the file name `name`.
pub fn stem(name: &str) -> (r: String)
    ensures
        r@ == stem_of(name@),
{
    let v = chars_of(name);
    let k: usize = match last_index_exec(&v, '.') {
        Some(k) => k,
        None => 0,
    };
    if k == 0 {
        name.to_owned()
    } else {
        let part = slice_chars(&v, 0, k);
        string_of(&part)
    }
}

/// The extension of the file name `name`.
pub fn extension(name: &str) -> (r: Option<String>)
    ensures
        match extension_of(name@) {
            Some(e) => r is Some && r->0@ == e,
            None => r is None,
        },
{
    let v = chars_of(name);
    let k: usize = match last_index_exec(&v, '.') {
        Some(k) => k,
        None => 0,
    };
    let n = v.len();
    if k == 0 {
        None
    } else {
        let part = slice_chars(&v, k + 1, n);
        Some(string_of(&part))
    }
}

/// `dir` joined with `name`.
pub fn join(dir: &str, name: &str) -> (r: String)
    ensures
        r@ == join_of(dir@, name@),
{
    let d = chars_of(dir);
    let mut out = dir.to_owned();
    if d.len() == 0 {
        return name.to_owned();
    }
    if d[d.len() - 1] != '/' {
        out.append("/");
        proof {
            reveal_strlit("/");
        }
    }
    out.append(name);
    proof {
        assert(d@.last() == d@[d@.len() - 1]);
        if d@.last() != '/' {
            assert(dir@ + "/"@ =~= dir@.push('/'));
        }
    }
    out
}

} // verus!

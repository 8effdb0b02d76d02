//! File system paths as text, with `/` as the separator.
use vstd::prelude::*;
use crate::text::{chars_of, split_char, split_seq, string_of, string_of_range, views};

verus! {

/// `base` extended by `seg`: an absolute `seg` replaces `base`; otherwise a
/// separator is put between them unless `base` is empty or already ends
/// with one.
pub open spec fn path_join_spec(base: Seq<char>, seg: Seq<char>) -> Seq<char> {
    if seg.len() > 0 && seg[0] == '/' {
        seg
    } else if base.len() == 0 || base.last() == '/' {
        base + seg
    } else {
        base + seq!['/'] + seg
    }
}

/// Joins a path segment to a base path.
pub fn path_join(base: &str, seg: &str) -> (r: String)
    ensures
        r@ == path_join_spec(base@, seg@),
{
    let b = chars_of(base);
    let s = chars_of(seg);
    if s.len() > 0 && s[0] == '/' {
        string_of(&s)
    } else if b.len() == 0 || b[b.len() - 1] == '/' {
        let mut r = string_of(&b);
        r.append(seg);
        r
    } else {
        let mut r = string_of(&b);
        r.append("/");
        proof {
            reveal_strlit("/");
        }
        r.append(seg);
        r
    }
}

/// `p` without trailing separators, keeping a lone root `/`.
pub open spec fn strip_trailing(p: Seq<char>) -> Seq<char>
    decreases p.len(),
{
    if p.len() > 1 && p.last() == '/' {
        strip_trailing(p.drop_last())
    } else {
        p
    }
}

/// Index of the last occurrence of `c` in `s`, if any.
pub open spec fn last_index_of(s: Seq<char>, c: char) -> Option<int>
    decreases s.len(),
{
    if s.len() == 0 {
        None
    } else if s.last() == c {
        Some(s.len() - 1)
    } else {
        last_index_of(s.drop_last(), c)
    }
}

/// The path without its last component; `None` for an empty path and for
/// the root.
pub open spec fn path_parent_spec(p: Seq<char>) -> Option<Seq<char>> {
    let q = strip_trailing(p);
    if q.len() == 0 || q == seq!['/'] {
        None
    } else {
        match last_index_of(q, '/') {
            None => Some(Seq::empty()),
            Some(i) => if i <= 0 {
                Some(seq!['/'])
            } else {
                Some(strip_trailing(q.subrange(0, i)))
            },
        }
    }
}

/// The last component of the path; `None` for an empty path, the root,
/// and a path ending in `..`.
pub open spec fn file_name_spec(p: Seq<char>) -> Option<Seq<char>> {
    let q = strip_trailing(p);
    if q.len() == 0 || q == seq!['/'] {
        None
    } else {
        let name = match last_index_of(q, '/') {
            None => q,
            Some(i) => q.subrange(i + 1, q.len() as int),
        };
        if name == seq!['.', '.'] {
            None
        } else {
            Some(name)
        }
    }
}

/// The path followed by each of its ancestors, nearest first, as repeated
/// removal of the last component visits them.
pub open spec fn ancestors_spec(p: Seq<char>) -> Seq<Seq<char>>
    decreases p.len(),
{
    match path_parent_spec(p) {
        None => seq![p],
        Some(q) => if q.len() < p.len() {
            seq![p] + ancestors_spec(q)
        } else {
            seq![p]
        },
    }
}

proof fn lemma_strip_trailing(p: Seq<char>)
    ensures
        strip_trailing(p).len() <= p.len(),
        strip_trailing(p) == p.subrange(0, strip_trailing(p).len() as int),
        p.len() > 0 ==> strip_trailing(p).len() > 0,
    decreases p.len(),
{
    if p.len() > 1 && p.last() == '/' {
        lemma_strip_trailing(p.drop_last());
        assert(p.drop_last().subrange(0, strip_trailing(p).len() as int) == p.subrange(0, strip_trailing(p).len() as int));
    } else {
        assert(p.subrange(0, p.len() as int) == p);
    }
}

proof fn lemma_last_index(s: Seq<char>, c: char)
    ensures
        match last_index_of(s, c) {
            Some(i) => 0 <= i < s.len() && s[i] == c && forall|j: int| i < j < s.len() ==> s[j] != c,
            None => forall|j: int| 0 <= j < s.len() ==> s[j] != c,
        },
    decreases s.len(),
{
    if s.len() > 0 && s.last() != c {
        let t = s.drop_last();
        lemma_last_index(t, c);
        assert forall|j: int| 0 <= j < t.len() implies t[j] == s[j] by {}
    }
}

/// The parent of a path is shorter than the path.
pub proof fn lemma_parent_shorter(p: Seq<char>)
    ensures
        path_parent_spec(p) matches Some(q) ==> q.len() < p.len(),
{
    let q = strip_trailing(p);
    lemma_strip_trailing(p);
    lemma_last_index(q, '/');
    if !(q.len() == 0 || q == seq!['/']) {
        match last_index_of(q, '/') {
            None => {},
            Some(i) => {
                if i <= 0 {
                    if q.len() == 1 {
                        assert(q[0] == '/');
                        assert(q == seq!['/']);
                    }
                } else {
                    lemma_strip_trailing(q.subrange(0, i));
                }
            },
        }
    }
}

fn strip_trailing_exec(v: &Vec<char>, len: usize) -> (r: usize)
    requires
        len <= v.len(),
    ensures
        r <= len,
        v@.subrange(0, r as int) == strip_trailing(v@.subrange(0, len as int)),
    decreases len,
{
    if len > 1 && v[len - 1] == '/' {
        assert(v@.subrange(0, len as int).drop_last() == v@.subrange(0, len - 1));
        strip_trailing_exec(v, len - 1)
    } else {
        len
    }
}

fn last_index_exec(v: &Vec<char>, len: usize, c: char) -> (r: Option<usize>)
    requires
        len <= v.len(),
    ensures
        match r {
            Some(i) => i < len && last_index_of(v@.subrange(0, len as int), c) == Some(i as int),
            None => last_index_of(v@.subrange(0, len as int), c) is None,
        },
    decreases len,
{
    if len == 0 {
        None
    } else if v[len - 1] == c {
        Some(len - 1)
    } else {
        assert(v@.subrange(0, len as int).drop_last() == v@.subrange(0, len - 1));
        last_index_exec(v, len - 1, c)
    }
}

/// The parent of a path, if it has one.
pub fn path_parent(p: &str) -> (r: Option<String>)
    ensures
        match r {
            Some(q) => path_parent_spec(p@) == Some(q@),
            None => path_parent_spec(p@) is None,
        },
{
    let v = chars_of(p);
    assert(v@.subrange(0, v.len() as int) == p@);
    let n = strip_trailing_exec(&v, v.len());
    let ghost q = strip_trailing(p@);
    assert(q == v@.subrange(0, n as int));
    if n == 0 || (n == 1 && v[0] == '/') {
        assert(n == 1 ==> q == seq!['/']);
        return None;
    }
    assert(q != seq!['/']);
    match last_index_exec(&v, n, '/') {
        None => Some(String::new()),
        Some(i) => {
            if i == 0 {
                let mut r = String::new();
                r.append("/");
                proof {
                    reveal_strlit("/");
                }
                Some(r)
            } else {
                let m = strip_trailing_exec(&v, i);
                assert(q.subrange(0, i as int) == v@.subrange(0, i as int));
                Some(string_of_range(&v, 0, m))
            }
        },
    }
}

/// The last component of a path, if it has one.
pub fn file_name(p: &str) -> (r: Option<String>)
    ensures
        match r {
            Some(q) => file_name_spec(p@) == Some(q@),
            None => file_name_spec(p@) is None,
        },
{
    let v = chars_of(p);
    assert(v@.subrange(0, v.len() as int) == p@);
    let n = strip_trailing_exec(&v, v.len());
    let ghost q = strip_trailing(p@);
    assert(q == v@.subrange(0, n as int));
    if n == 0 || (n == 1 && v[0] == '/') {
        assert(n == 1 ==> q == seq!['/']);
        return None;
    }
    assert(q != seq!['/']);
    let start: usize = match last_index_exec(&v, n, '/') {
        None => 0,
        Some(i) => i + 1,
    };
    proof {
        lemma_last_index(q, '/');
    }
    assert(v@.subrange(start as int, n as int) == match last_index_of(q, '/') {
        None => q,
        Some(i) => q.subrange(i + 1, q.len() as int),
    });
    if n - start == 2 && v[start] == '.' && v[start + 1] == '.' {
        assert(v@.subrange(start as int, n as int) =~= seq!['.', '.']);
        return None;
    }
    assert(v@.subrange(start as int, n as int) != seq!['.', '.']) by {
        if v@.subrange(start as int, n as int) == seq!['.', '.'] {
            assert(v@.subrange(start as int, n as int)[0] == v@[start as int]);
            assert(v@.subrange(start as int, n as int)[1] == v@[start + 1]);
        }
    }
    Some(string_of_range(&v, start, n))
}

/// The file name without its extension: the part before the last `.`,
/// unless the name has no `.` or only a leading one.
pub open spec fn stem_of(name: Seq<char>) -> Seq<char> {
    match last_index_of(name, '.') {
        None => name,
        Some(i) => if i <= 0 {
            name
        } else {
            name.subrange(0, i)
        },
    }
}

/// The stem of the path's file name, as `Path::file_stem` gives it.
pub open spec fn file_stem_spec(p: Seq<char>) -> Option<Seq<char>> {
    match file_name_spec(p) {
        Some(n) => Some(stem_of(n)),
        None => None,
    }
}

/// The stem of the path's file name, if it has a file name.
pub fn file_stem(p: &str) -> (r: Option<String>)
    ensures
        match r {
            Some(q) => file_stem_spec(p@) == Some(q@),
            None => file_stem_spec(p@) is None,
        },
{
    match file_name(p) {
        None => None,
        Some(n) => {
            let v = chars_of(n.as_str());
            assert(v@.subrange(0, v.len() as int) == n@);
            match last_index_exec(&v, v.len(), '.') {
                None => Some(n),
                Some(i) => if i == 0 {
                    Some(n)
                } else {
                    Some(string_of_range(&v, 0, i))
                },
            }
        },
    }
}

/// The path components among `/`-separated parts: empty parts and `.`
/// are no components.
pub open spec fn keep_components(parts: Seq<Seq<char>>) -> Seq<Seq<char>>
    decreases parts.len(),
{
    if parts.len() == 0 {
        Seq::empty()
    } else {
        let r = keep_components(parts.drop_last());
        let l = parts.last();
        if l.len() > 0 && l != seq!['.'] {
            r.push(l)
        } else {
            r
        }
    }
}

/// The components of a path.
pub open spec fn components_spec(p: Seq<char>) -> Seq<Seq<char>> {
    keep_components(split_seq(p, '/'))
}

/// Whether path `a` ends with path `b`, component by component; a `b`
/// from the root must be all of `a`.
pub open spec fn ends_with_spec(a: Seq<char>, b: Seq<char>) -> bool {
    let ca = components_spec(a);
    let cb = components_spec(b);
    if b.len() > 0 && b[0] == '/' {
        a.len() > 0 && a[0] == '/' && ca == cb
    } else {
        cb.len() <= ca.len() && ca.subrange(ca.len() - cb.len(), ca.len() as int) == cb
    }
}

/// The components of a path.
pub fn components(p: &str) -> (r: Vec<String>)
    ensures
        views(r@) == components_spec(p@),
{
    let parts = split_char(p, '/');
    let mut out: Vec<String> = Vec::new();
    let mut i: usize = 0;
    while i < parts.len()
        invariant
            i <= parts@.len(),
            views(parts@) == split_seq(p@, '/'),
            views(out@) == keep_components(views(parts@).subrange(0, i as int)),
        decreases parts.len() - i,
    {
        let ghost pre = views(parts@).subrange(0, i as int);
        assert(views(parts@).subrange(0, i + 1).drop_last() == pre);
        let part = &parts[i];
        let keep = !crate::text::str_eq(part.as_str(), "") && !crate::text::str_eq(part.as_str(), ".");
        proof {
            reveal_strlit("");
            reveal_strlit(".");
            assert(""@ == Seq::<char>::empty());
            assert("."@ == seq!['.']);
            assert(part@.len() == 0 ==> part@ =~= Seq::<char>::empty());
        }
        assert(views(parts@).subrange(0, i + 1) == pre.push(part@));
        assert(pre.push(part@).drop_last() =~= pre);
        if keep {
            let ghost before = out@;
            let c = part.clone();
            out.push(c);
            assert(views(out@) == views(before).push(part@)) by {
                assert(views(out@) =~= views(before).push(part@));
            }
        } else {
            assert(part@.len() == 0 || part@ == seq!['.']);
        }
        assert(keep_components(pre.push(part@)) == if part@.len() > 0 && part@ != seq!['.'] {
            keep_components(pre).push(part@)
        } else {
            keep_components(pre)
        });
        assert(views(out@) == keep_components(views(parts@).subrange(0, i + 1)));
        i = i + 1;
    }
    assert(views(parts@).subrange(0, parts@.len() as int) == views(parts@));
    out
}

/// Whether path `a` ends with path `b`, component by component, as
/// `Path::ends_with` compares them.
pub fn ends_with(a: &str, b: &str) -> (r: bool)
    ensures
        r == ends_with_spec(a@, b@),
{
    let ca = components(a);
    let cb = components(b);
    let ghost sa = views(ca@);
    let ghost sb = views(cb@);
    if has_root(b) {
        if !has_root(a) || ca.len() != cb.len() {
            assert(sa.len() != sb.len() ==> sa != sb);
            return false;
        }
    }
    if cb.len() > ca.len() {
        return false;
    }
    let off = ca.len() - cb.len();
    let mut i: usize = 0;
    while i < cb.len()
        invariant
            i <= cb@.len(),
            off as int + cb@.len() == ca@.len(),
            sa == views(ca@),
            sb == views(cb@),
            sa == components_spec(a@),
            sb == components_spec(b@),
            (b@.len() > 0 && b@[0] == '/') ==> (a@.len() > 0 && a@[0] == '/' && off == 0),
            forall|j: int| 0 <= j < i ==> sa[off + j] == sb[j],
        decreases cb.len() - i,
    {
        assert(off + i < ca.len());
        if !crate::text::str_eq(ca[off + i].as_str(), cb[i].as_str()) {
            assert(sa.subrange(off as int, sa.len() as int)[i as int] != sb[i as int]);
            assert(sa.subrange(off as int, sa.len() as int) != sb);
            assert(off == 0 ==> sa.subrange(0, sa.len() as int) == sa);
            return false;
        }
        i = i + 1;
    }
    assert(sa.subrange(off as int, sa.len() as int) =~= sb);
    assert(off == 0 ==> sa.subrange(0, sa.len() as int) == sa);
    true
}

/// Whether the path is absolute.
pub fn has_root(p: &str) -> (r: bool)
    ensures
        r == (p@.len() > 0 && p@[0] == '/'),
{
    let v = chars_of(p);
    v.len() > 0 && v[0] == '/'
}

/// The path followed by each of its ancestors, nearest first.
pub fn ancestors(p: &str) -> (r: Vec<String>)
    ensures
        views(r@) == ancestors_spec(p@),
    decreases p@.len(),
{
    let mut r: Vec<String> = Vec::new();
    r.push(crate::text::owned(p));
    proof {
        lemma_parent_shorter(p@);
    }
    match path_parent(p) {
        None => {
            assert(views(r@) == seq![p@]);
            r
        },
        Some(q) => {
            let rest = ancestors(q.as_str());
            let ghost first = r@;
            let mut k: usize = 0;
            while k < rest.len()
                invariant
                    k <= rest.len(),
                    r@ == first + rest@.subrange(0, k as int),
                decreases rest.len() - k,
            {
                r.push(rest[k].clone());
                assert(rest@.subrange(0, k + 1) == rest@.subrange(0, k as int).push(rest@[k as int]));
                k = k + 1;
            }
            assert(rest@.subrange(0, rest.len() as int) == rest@);
            assert(views(r@) == seq![p@] + views(rest@));
            r
        },
    }
}

} // verus!

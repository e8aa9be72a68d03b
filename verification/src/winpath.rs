//! The Windows path model of the library.
//!
//! Remote paths name files on a Windows target, whatever machine the tool runs
//! on, so they are handled as text: `\` and `/` separate components, and a
//! name is joined to a directory with `\`.

use vstd::prelude::*;
use crate::text::{chars_of, string_of_range, push_char};

verus! {

/// A path separator.
pub open spec fn is_sep(c: char) -> bool {
    c == '\\' || c == '/'
}

/// `s` without its trailing separators.
pub open spec fn trim_seps_end(s: Seq<char>) -> Seq<char>
    decreases s.len(),
{
    if s.len() > 0 && is_sep(s.last()) {
        trim_seps_end(s.drop_last())
    } else {
        s
    }
}

/// The index of the last separator of `s`, if it has one.
pub open spec fn last_sep(s: Seq<char>) -> Option<int>
    decreases s.len(),
{
    if s.len() == 0 {
        None
    } else if is_sep(s.last()) {
        Some(s.len() - 1)
    } else {
        last_sep(s.drop_last())
    }
}

/// The last component of `path`, trailing separators ignored.
pub open spec fn last_component(path: Seq<char>) -> Seq<char> {
    let t = trim_seps_end(path);
    match last_sep(t) {
        Some(k) => t.skip(k + 1),
        None => t,
    }
}

proof fn lemma_last_sep_none(s: Seq<char>)
    requires
        forall|i: int| 0 <= i < s.len() ==> !is_sep(#[trigger] s[i]),
    ensures
        last_sep(s) == None::<int>,
    decreases s.len(),
{
    if s.len() > 0 {
        assert forall|i: int| 0 <= i < s.drop_last().len() implies !is_sep(#[trigger] s.drop_last()[i]) by {
            assert(s.drop_last()[i] == s[i]);
        }
        lemma_last_sep_none(s.drop_last());
    }
}

/// A path without separators is its own last component and has an empty
/// directory part.
pub proof fn lemma_no_sep_component(s: Seq<char>)
    requires
        forall|i: int| 0 <= i < s.len() ==> !is_sep(#[trigger] s[i]),
    ensures
        last_component(s) == s,
        parent_part(s) == Seq::<char>::empty(),
{
    if s.len() > 0 {
        assert(!is_sep(s[s.len() - 1]));
    }
    assert(trim_seps_end(s) == s);
    lemma_last_sep_none(s);
}

/// Whether `f` can be a file name: not empty, no separator, not `..`, and
/// not ending with `:`.
pub open spec fn plain_name(f: Seq<char>) -> bool {
    &&& f.len() > 0
    &&& forall|i: int| 0 <= i < f.len() ==> !is_sep(#[trigger] f[i])
    &&& f != seq!['.', '.']
    &&& f.last() != ':'
}

proof fn lemma_last_sep_after(s: Seq<char>)
    ensures
        match last_sep(s) {
            Some(k) => 0 <= k < s.len() && is_sep(s[k]) && forall|j: int| k < j < s.len() ==> !is_sep(#[trigger] s[j]),
            None => forall|j: int| 0 <= j < s.len() ==> !is_sep(#[trigger] s[j]),
        },
    decreases s.len(),
{
    if s.len() > 0 && !is_sep(s.last()) {
        let d = s.drop_last();
        lemma_last_sep_after(d);
        match last_sep(d) {
            Some(k) => {
                assert(s[k] == d[k]);
                assert forall|j: int| k < j < s.len() implies !is_sep(#[trigger] s[j]) by {
                    if j < s.len() - 1 {
                        assert(s[j] == d[j]);
                    }
                }
            },
            None => {
                assert forall|j: int| 0 <= j < s.len() implies !is_sep(#[trigger] s[j]) by {
                    if j < s.len() - 1 {
                        assert(s[j] == d[j]);
                    }
                }
            },
        }
    }
}

proof fn lemma_trim_seps_end_prefix(s: Seq<char>)
    ensures
        trim_seps_end(s) =~= s.take(trim_seps_end(s).len() as int),
        trim_seps_end(s).len() <= s.len(),
    decreases s.len(),
{
    if s.len() > 0 && is_sep(s.last()) {
        lemma_trim_seps_end_prefix(s.drop_last());
    }
}

/// A file name is plain (see `plain_name`).
pub proof fn lemma_file_name_plain(path: Seq<char>)
    requires
        file_name_of(path) is Some,
    ensures
        plain_name(file_name_of(path)->Some_0),
{
    let t = trim_seps_end(path);
    lemma_last_sep_after(t);
    let f = last_component(path);
    match last_sep(t) {
        Some(k) => {
            assert forall|i: int| 0 <= i < f.len() implies !is_sep(#[trigger] f[i]) by {
                assert(f[i] == t[k + 1 + i]);
            }
        },
        None => {},
    }
}

/// The file name of a plain name joined to any directory is that name.
pub proof fn lemma_joined_file_name(base: Seq<char>, f: Seq<char>)
    requires
        plain_name(f),
    ensures
        file_name_of(path_joined(base, f)) == Some(f),
{
    let q = path_joined(base, f);
    let x = if base.len() == 0 {
        base
    } else if is_sep(base.last()) {
        base
    } else {
        base + seq!['\\']
    };
    assert(q =~= x + f);
    assert(q.last() == f.last());
    assert(trim_seps_end(q) == q);
    lemma_last_sep_after(q);
    if x.len() == 0 {
        assert forall|j: int| 0 <= j < q.len() implies !is_sep(#[trigger] q[j]) by {
            assert(q[j] == f[j]);
        }
        match last_sep(q) {
            Some(k) => {
                assert(q[k] == f[k]);
            },
            None => {},
        }
        assert(last_component(q) =~= f);
    } else {
        assert(is_sep(x.last()));
        assert(q[x.len() - 1] == x.last());
        match last_sep(q) {
            Some(k) => {
                if k < x.len() - 1 {
                    assert(k < x.len() - 1 < q.len());
                    assert(false);
                }
                if k >= x.len() {
                    assert(q[k] == f[k - x.len()]);
                    assert(false);
                }
                assert(q.skip(k + 1) =~= f);
            },
            None => {
                assert(false);
            },
        }
    }
}

/// A path that ends with a plain suffix (no separator, not ending with `:`
/// or `.`) has a file name, which ends with that suffix.
pub proof fn lemma_file_name_with_suffix(x: Seq<char>, y: Seq<char>)
    requires
        y.len() > 0,
        forall|i: int| 0 <= i < y.len() ==> !is_sep(#[trigger] y[i]),
        y.last() != ':',
        y.last() != '.',
    ensures
        file_name_of(x + y) is Some,
{
    let q = x + y;
    assert(q.last() == y.last());
    assert(trim_seps_end(q) == q);
    lemma_last_sep_after(q);
    let f = last_component(q);
    match last_sep(q) {
        Some(k) => {
            if k >= x.len() {
                assert(q[k] == y[k - x.len()]);
                assert(false);
            }
            assert(f == q.skip(k + 1));
            assert(f.len() >= y.len());
            assert(f.last() == q.last());
        },
        None => {
            assert(f == q);
        },
    }
    assert(f.last() == y.last());
    if f == seq!['.', '.'] {
        assert(f.last() == '.');
    }
}

/// The directory part of `path`: what stands before its last component.
pub open spec fn parent_part(path: Seq<char>) -> Seq<char> {
    let t = trim_seps_end(path);
    match last_sep(t) {
        Some(k) => t.take(k),
        None => Seq::empty(),
    }
}

/// The file name of `path`, if it has one: not for an empty path, a drive
/// such as `C:`, or `..`.
pub open spec fn file_name_of(path: Seq<char>) -> Option<Seq<char>> {
    let f = last_component(path);
    if f.len() == 0 || f == seq!['.', '.'] || f.last() == ':' {
        None
    } else {
        Some(f)
    }
}

/// `name` joined to the directory `base` with a `\` between them.
pub open spec fn path_joined(base: Seq<char>, name: Seq<char>) -> Seq<char> {
    if base.len() == 0 {
        name
    } else if is_sep(base.last()) {
        base + name
    } else {
        base + seq!['\\'] + name
    }
}

/// Whether `c` is a path separator.
pub fn is_sep_exec(c: char) -> (res: bool)
    ensures
        res == is_sep(c),
{
    c == '\\' || c == '/'
}

proof fn lemma_trim_seps_take(s: Seq<char>, k: int)
    requires
        0 <= k <= s.len(),
        forall|j: int| k <= j < s.len() ==> is_sep(#[trigger] s[j]),
        k == 0 || !is_sep(s[k - 1]),
    ensures
        trim_seps_end(s) == s.take(k),
    decreases s.len() - k,
{
    if k < s.len() {
        assert(s.drop_last().take(k) =~= s.take(k));
        assert forall|j: int| k <= j < s.drop_last().len() implies is_sep(
            #[trigger] s.drop_last()[j],
        ) by {
            assert(s.drop_last()[j] == s[j]);
        }
        if k > 0 {
            assert(s.drop_last()[k - 1] == s[k - 1]);
        }
        lemma_trim_seps_take(s.drop_last(), k);
    } else {
        assert(s.take(k) =~= s);
        if k > 0 {
            assert(s.last() == s[k - 1]);
        }
    }
}

proof fn lemma_last_sep_take(s: Seq<char>, m: int)
    requires
        0 <= m <= s.len(),
        forall|j: int| m <= j < s.len() ==> !is_sep(#[trigger] s[j]),
    ensures
        last_sep(s) == last_sep(s.take(m)),
    decreases s.len() - m,
{
    if m < s.len() {
        assert(s.drop_last().take(m) =~= s.take(m));
        assert forall|j: int| m <= j < s.drop_last().len() implies !is_sep(
            #[trigger] s.drop_last()[j],
        ) by {
            assert(s.drop_last()[j] == s[j]);
        }
        assert(!is_sep(s[s.len() - 1]));
        lemma_last_sep_take(s.drop_last(), m);
    } else {
        assert(s.take(m) =~= s);
    }
}

/// The end of `path` without trailing separators, and the position of the
/// last separator before it.
fn split_last(cs: &Vec<char>) -> (res: (usize, Option<usize>))
    ensures
        res.0 <= cs.len(),
        trim_seps_end(cs@) == cs@.take(res.0 as int),
        match res.1 {
            Some(k) => k < res.0 && last_sep(cs@.take(res.0 as int)) == Some(k as int),
            None => last_sep(cs@.take(res.0 as int)) == None::<int>,
        },
{
    let mut end = cs.len();
    while end > 0 && is_sep_exec(cs[end - 1])
        invariant
            end <= cs.len(),
            forall|j: int| end <= j < cs.len() ==> is_sep(#[trigger] cs@[j]),
        decreases end,
    {
        end = end - 1;
    }
    proof {
        lemma_trim_seps_take(cs@, end as int);
    }
    let ghost t = cs@.take(end as int);
    let mut m = end;
    while m > 0 && !is_sep_exec(cs[m - 1])
        invariant
            m <= end <= cs.len(),
            t == cs@.take(end as int),
            forall|j: int| m <= j < end ==> !is_sep(#[trigger] cs@[j]),
        decreases m,
    {
        m = m - 1;
    }
    proof {
        assert forall|j: int| m <= j < t.len() implies !is_sep(#[trigger] t[j]) by {
            assert(t[j] == cs@[j]);
        }
        lemma_last_sep_take(t, m as int);
        assert(t.take(m as int) =~= cs@.take(m as int));
    }
    if m == 0 {
        assert(last_sep(cs@.take(0)) == None::<int>);
        (end, None)
    } else {
        let ghost u = cs@.take(m as int);
        assert(u.last() == cs@[m - 1]);
        (end, Some(m - 1))
    }
}

/// The last component of `path`, trailing separators ignored.
pub fn last_component_exec(path: &str) -> (res: String)
    ensures
        res@ == last_component(path@),
{
    let cs = chars_of(path);
    let (end, k) = split_last(&cs);
    match k {
        Some(k) => {
            assert(cs@.take(end as int).skip(k + 1) =~= cs@.subrange(k + 1, end as int));
            string_of_range(&cs, k + 1, end)
        },
        None => {
            assert(cs@.take(end as int) =~= cs@.subrange(0, end as int));
            string_of_range(&cs, 0, end)
        },
    }
}

/// The directory part of `path` (see `parent_part`).
pub fn parent_of(path: &str) -> (res: String)
    ensures
        res@ == parent_part(path@),
{
    let cs = chars_of(path);
    let (end, k) = split_last(&cs);
    match k {
        Some(k) => {
            assert(cs@.take(end as int).take(k as int) =~= cs@.subrange(0, k as int));
            string_of_range(&cs, 0, k)
        },
        None => String::new(),
    }
}

/// The file name of `path`, as `Path::file_name` gives it on Windows.
pub fn file_name(path: &str) -> (res: Option<String>)
    ensures
        match res {
            Some(f) => file_name_of(path@) == Some(f@),
            None => file_name_of(path@) is None,
        },
{
    let f = last_component_exec(path);
    let fc = chars_of(f.as_str());
    if fc.len() == 0 {
        return None;
    }
    if fc.len() == 2 && fc[0] == '.' && fc[1] == '.' {
        assert(f@ =~= seq!['.', '.']);
        return None;
    }
    if fc[fc.len() - 1] == ':' {
        return None;
    }
    assert(f@ != seq!['.', '.']) by {
        if f@ == seq!['.', '.'] {
            assert(fc.len() == 2);
        }
    }
    Some(f)
}

/// `name` joined to the directory `base` (see `path_joined`).
pub fn join_path(base: &str, name: &str) -> (res: String)
    ensures
        res@ == path_joined(base@, name@),
{
    let bc = chars_of(base);
    if bc.len() == 0 {
        return String::from_str(name);
    }
    let mut res = String::from_str(base);
    if !is_sep_exec(bc[bc.len() - 1]) {
        push_char(&mut res, '\\');
    }
    res.append(name);
    res
}


/// The components found in a prefix of a path, and the one being read.
pub open spec fn comp_scan(s: Seq<char>) -> (Seq<Seq<char>>, Seq<char>)
    decreases s.len(),
{
    if s.len() == 0 {
        (Seq::empty(), Seq::empty())
    } else {
        let (parts, cur) = comp_scan(s.drop_last());
        if is_sep(s.last()) {
            (if cur.len() > 0 { parts.push(cur) } else { parts }, Seq::empty())
        } else {
            (parts, cur.push(s.last()))
        }
    }
}

/// The non-empty pieces of `path` between its separators, in order.
pub open spec fn components(path: Seq<char>) -> Seq<Seq<char>> {
    let (parts, cur) = comp_scan(path);
    if cur.len() > 0 {
        parts.push(cur)
    } else {
        parts
    }
}

/// The components of `path` (see `components`).
pub fn path_components(path: &str) -> (res: Vec<String>)
    ensures
        crate::text::views(res@) == components(path@),
{
    let cs = chars_of(path);
    let mut parts: Vec<String> = Vec::new();
    let mut cur = String::new();
    let mut i: usize = 0;
    assert(path@.take(0).len() == 0);
    assert(crate::text::views(parts@) =~= Seq::<Seq<char>>::empty());
    assert(cur@ =~= Seq::<char>::empty());
    while i < cs.len()
        invariant
            cs@ == path@,
            i <= cs.len(),
            comp_scan(path@.take(i as int)) == (crate::text::views(parts@), cur@),
        decreases cs.len() - i,
    {
        assert(path@.take(i + 1).drop_last() =~= path@.take(i as int));
        let c = cs[i];
        let ghost before = crate::text::views(parts@);
        if is_sep_exec(c) {
            if cur.unicode_len() > 0 {
                parts.push(cur);
                assert(crate::text::views(parts@) =~= before.push(cur@));
            }
            cur = String::new();
            assert(cur@ =~= Seq::<char>::empty());
        } else {
            push_char(&mut cur, c);
        }
        i = i + 1;
    }
    assert(path@.take(i as int) =~= path@);
    let ghost before = crate::text::views(parts@);
    if cur.unicode_len() > 0 {
        parts.push(cur);
        assert(crate::text::views(parts@) =~= before.push(cur@));
    }
    parts
}

/// The position of the last `.` of a file name, when it is not the first character.
pub open spec fn ext_dot(f: Seq<char>) -> Option<int>
    decreases f.len(),
{
    if f.len() <= 1 {
        None
    } else if f.last() == '.' {
        Some(f.len() - 1)
    } else {
        ext_dot(f.drop_last())
    }
}

/// The extension of a file name: what follows its last `.`, unless that `.`
/// is its first character.
pub open spec fn extension_of(f: Seq<char>) -> Option<Seq<char>> {
    match ext_dot(f) {
        Some(k) => Some(f.skip(k + 1)),
        None => None,
    }
}

/// The stem of a file name: what precedes its extension's `.`.
pub open spec fn stem_of(f: Seq<char>) -> Seq<char> {
    match ext_dot(f) {
        Some(k) => f.take(k),
        None => f,
    }
}

proof fn lemma_ext_dot_take(f: Seq<char>, m: int)
    requires
        1 <= m <= f.len(),
        forall|j: int| m <= j < f.len() ==> #[trigger] f[j] != '.',
    ensures
        ext_dot(f) == ext_dot(f.take(m)),
    decreases f.len() - m,
{
    if m < f.len() {
        assert(f.drop_last().take(m) =~= f.take(m));
        assert forall|j: int| m <= j < f.drop_last().len() implies #[trigger] f.drop_last()[j]
            != '.' by {
            assert(f.drop_last()[j] == f[j]);
        }
        assert(f[f.len() - 1] != '.');
        lemma_ext_dot_take(f.drop_last(), m);
    } else {
        assert(f.take(m) =~= f);
    }
}

/// The position of the extension's `.` in the file name `f` (see `ext_dot`).
pub fn ext_dot_exec(f: &str) -> (res: Option<usize>)
    ensures
        match res {
            Some(k) => ext_dot(f@) == Some(k as int) && k < f@.len(),
            None => ext_dot(f@) == None::<int>,
        },
{
    let cs = chars_of(f);
    if cs.len() <= 1 {
        return None;
    }
    let mut m = cs.len();
    while m > 1 && cs[m - 1] != '.'
        invariant
            1 <= m <= cs.len(),
            cs@ == f@,
            forall|j: int| m <= j < cs.len() ==> #[trigger] f@[j] != '.',
        decreases m,
    {
        m = m - 1;
    }
    proof {
        lemma_ext_dot_take(f@, m as int);
    }
    if m == 1 {
        assert(f@.take(1).len() <= 1);
        None
    } else {
        assert(f@.take(m as int).last() == f@[m - 1]);
        Some(m - 1)
    }
}

proof fn lemma_last_sep_suffix(x: Seq<char>, y: Seq<char>)
    requires
        forall|i: int| 0 <= i < y.len() ==> !is_sep(#[trigger] y[i]),
    ensures
        last_sep(x + y) == last_sep(x),
    decreases y.len(),
{
    if y.len() == 0 {
        assert(x + y =~= x);
    } else {
        assert((x + y).last() == y.last());
        assert((x + y).drop_last() =~= x + y.drop_last());
        lemma_last_sep_suffix(x, y.drop_last());
    }
}

/// A path whose file name gets `.` and a dotless tail added: the new file
/// name is the old one with that suffix, its stem is the old file name, its
/// extension the tail, and its directory is unchanged.
pub proof fn lemma_dotted_suffix(path: Seq<char>, y: Seq<char>)
    requires
        file_name_of(path) is Some,
        path.len() > 0 ==> !is_sep(path.last()),
        y.len() >= 2,
        y[0] == '.',
        forall|i: int| 0 <= i < y.len() ==> !is_sep(#[trigger] y[i]),
        forall|i: int| 1 <= i < y.len() ==> #[trigger] y[i] != '.',
        y.last() != ':',
    ensures
        file_name_of(path + y) == Some(file_name_of(path)->Some_0 + y),
        parent_part(path + y) == parent_part(path),
        stem_of(file_name_of(path)->Some_0 + y) == file_name_of(path)->Some_0,
        extension_of(file_name_of(path)->Some_0 + y) == Some(y.drop_first()),
{
    let f = file_name_of(path)->Some_0;
    let q = path + y;
    if path.len() == 0 {
        assert(trim_seps_end(path) =~= path);
        assert(last_component(path).len() == 0);
    }
    assert(trim_seps_end(path) == path);
    assert(q.last() == y.last());
    assert(trim_seps_end(q) == q);
    lemma_last_sep_suffix(path, y);
    match last_sep(path) {
        Some(k) => {
            lemma_last_sep_after(path);
            assert(q.skip(k + 1) =~= path.skip(k + 1) + y);
            assert(q.take(k) =~= path.take(k));
        },
        None => {},
    }
    let g = f + y;
    assert(last_component(q) == g);
    assert(g.last() == y.last());
    assert(g.len() > 0);
    if g == seq!['.', '.'] {
        assert(g.last() == '.');
        assert(y.last() == y[y.len() - 1]);
    }
    assert(y.last() != '.') by {
        assert(y.last() == y[y.len() - 1]);
    }
    let m: int = f.len() as int + 1;
    assert forall|j: int| m <= j < g.len() implies #[trigger] g[j] != '.' by {
        assert(g[j] == y[j - f.len()]);
    }
    lemma_ext_dot_take(g, m);
    let h = g.take(m);
    assert(h.last() == '.') by {
        assert(h[m - 1] == y[0]);
    }
    assert(h.len() > 1);
    assert(ext_dot(h) == Some(f.len() as int));
    assert(g.skip(m) =~= y.drop_first());
    assert(g.take(f.len() as int) =~= f);
}

} // verus!

//! Reading KAPE target (`.tkape`) and module (`.mkape`) configuration files.

use vstd::prelude::*;
use crate::winpath::{file_name, file_name_of, ext_dot_exec, extension_of};
use crate::text::{views, chars_of, string_of_range, has_prefix, has_infix, is_ascii_white, starts_with, contains, same_text, to_lowercase, unicode_lowered};

verus! {

/// One entry of a configuration file: a `key: value` line, or a key that
/// heads a list of groups of entries.
pub enum KapePair {
    Single(String, String),
    Multiple(String, Vec<Vec<KapePair>>),
}

/// The mathematical content of a `KapePair`.
pub enum PairModel {
    Single(Seq<char>, Seq<char>),
    Multiple(Seq<char>, Seq<Seq<PairModel>>),
}

/// The content of an entry.
pub open spec fn pair_view(p: KapePair) -> PairModel
    decreases p,
{
    match p {
        KapePair::Single(k, v) => PairModel::Single(k@, v@),
        KapePair::Multiple(k, groups) => PairModel::Multiple(k@, groups_view(groups@)),
    }
}

/// The content of a sequence of groups of entries.
pub open spec fn groups_view(groups: Seq<Vec<KapePair>>) -> Seq<Seq<PairModel>>
    decreases groups,
{
    if groups.len() == 0 {
        Seq::empty()
    } else {
        groups_view(groups.drop_last()).push(pairs_view(groups.last()@))
    }
}

/// The content of a sequence of entries.
pub open spec fn pairs_view(pairs: Seq<KapePair>) -> Seq<PairModel>
    decreases pairs,
{
    if pairs.len() == 0 {
        Seq::empty()
    } else {
        pairs_view(pairs.drop_last()).push(pair_view(pairs.last()))
    }
}

/// The number of ASCII white-space characters at the start of `s`.
pub open spec fn lead_count(s: Seq<char>) -> nat
    decreases s.len(),
{
    if s.len() > 0 && is_ascii_white(s[0]) {
        1 + lead_count(s.drop_first())
    } else {
        0
    }
}

proof fn lemma_lead_count(s: Seq<char>, k: int)
    requires
        0 <= k <= s.len(),
        forall|j: int| 0 <= j < k ==> is_ascii_white(#[trigger] s[j]),
        k == s.len() || !is_ascii_white(s[k]),
    ensures
        lead_count(s) == k,
    decreases k,
{
    if k > 0 {
        assert forall|j: int| 0 <= j < k - 1 implies is_ascii_white(#[trigger] s.drop_first()[j]) by {
            assert(s.drop_first()[j] == s[j + 1]);
        }
        if k < s.len() {
            assert(s.drop_first()[k - 1] == s[k]);
        }
        lemma_lead_count(s.drop_first(), k - 1);
    }
}

/// Whether `c` is ASCII white space.
pub fn is_ascii_white_exec(c: char) -> (res: bool)
    ensures
        res == is_ascii_white(c),
{
    c == ' ' || c == '\t' || c == '\n' || c == '\x0C' || c == '\r'
}

/// `in_string` without its leading ASCII white space, and how many
/// characters were removed.
pub fn remove_leading_whitspaces(in_string: &str) -> (res: (String, usize))
    ensures
        res.1 == lead_count(in_string@),
        res.1 <= in_string@.len(),
        res.0@ == in_string@.skip(lead_count(in_string@) as int),
{
    let cs = chars_of(in_string);
    let mut k: usize = 0;
    while k < cs.len() && is_ascii_white_exec(cs[k])
        invariant
            cs@ == in_string@,
            k <= cs.len(),
            forall|j: int| 0 <= j < k ==> is_ascii_white(#[trigger] in_string@[j]),
        decreases cs.len() - k,
    {
        k = k + 1;
    }
    proof {
        lemma_lead_count(in_string@, k as int);
    }
    assert(in_string@.subrange(k as int, cs.len() as int) =~= in_string@.skip(k as int));
    (string_of_range(&cs, k, cs.len()), k)
}

/// The position of the first `:` in `s`, if there is one.
pub open spec fn first_colon(s: Seq<char>) -> Option<int>
    decreases s.len(),
{
    if s.len() == 0 {
        None
    } else if s[0] == ':' {
        Some(0)
    } else {
        match first_colon(s.drop_first()) {
            Some(k) => Some(k + 1),
            None => None,
        }
    }
}

/// The text before and after the first `:` of `s`, if it has one.
pub open spec fn colon_split(s: Seq<char>) -> Option<(Seq<char>, Seq<char>)> {
    match first_colon(s) {
        Some(k) => Some((s.take(k), s.skip(k + 1))),
        None => None,
    }
}

proof fn lemma_first_colon(s: Seq<char>, k: int)
    requires
        0 <= k <= s.len(),
        forall|j: int| 0 <= j < k ==> #[trigger] s[j] != ':',
    ensures
        k < s.len() && s[k] == ':' ==> first_colon(s) == Some(k),
        k == s.len() ==> first_colon(s) == None::<int>,
    decreases k,
{
    if k > 0 {
        assert forall|j: int| 0 <= j < k - 1 implies #[trigger] s.drop_first()[j] != ':' by {
            assert(s.drop_first()[j] == s[j + 1]);
        }
        if k < s.len() {
            assert(s.drop_first()[k - 1] == s[k]);
        }
        lemma_first_colon(s.drop_first(), k - 1);
    }
}

/// The text before and after the first `:` of `in_string`, as
/// `splitn(2, ':')` gives them; `None` when there is no `:`.
pub fn split_once(in_string: &str) -> (res: Option<(String, String)>)
    ensures
        match res {
            Some((a, b)) => colon_split(in_string@) == Some((a@, b@)) && a@.len() + 1 + b@.len() == in_string@.len(),
            None => colon_split(in_string@) is None,
        },
{
    let cs = chars_of(in_string);
    let mut k: usize = 0;
    while k < cs.len() && cs[k] != ':'
        invariant
            cs@ == in_string@,
            k <= cs.len(),
            forall|j: int| 0 <= j < k ==> #[trigger] in_string@[j] != ':',
        decreases cs.len() - k,
    {
        k = k + 1;
    }
    proof {
        lemma_first_colon(in_string@, k as int);
    }
    if k == cs.len() {
        None
    } else {
        let a = string_of_range(&cs, 0, k);
        let b = string_of_range(&cs, k + 1, cs.len());
        assert(in_string@.subrange(0, k as int) =~= in_string@.take(k as int));
        assert(in_string@.subrange(k + 1, cs.len() as int) =~= in_string@.skip(k + 1));
        Some((a, b))
    }
}

/// Whether a line is skipped: empty, a `#` comment, or nothing but ASCII white space.
pub open spec fn blank_or_comment(s: Seq<char>) -> bool {
    has_prefix(s, "#"@) || s.len() == 0 || (forall|i: int| 0 <= i < s.len() ==> is_ascii_white(#[trigger] s[i]))
}

/// Whether a line is skipped (see `blank_or_comment`).
pub fn is_empty_or_comment(in_string: &str) -> (res: bool)
    ensures
        res == blank_or_comment(in_string@),
{
    if starts_with(in_string, "#") {
        return true;
    }
    let cs = chars_of(in_string);
    if cs.len() == 0 {
        return true;
    }
    let mut k: usize = 0;
    while k < cs.len()
        invariant
            cs@ == in_string@,
            k <= cs.len(),
            cs.len() > 0,
            !has_prefix(in_string@, "#"@),
            forall|j: int| 0 <= j < k ==> is_ascii_white(#[trigger] in_string@[j]),
        decreases cs.len() - k,
    {
        if !is_ascii_white_exec(cs[k]) {
            assert(!is_ascii_white(in_string@[k as int]));
            assert(!(forall|i: int| 0 <= i < in_string@.len() ==> is_ascii_white(#[trigger] in_string@[i])));
            return false;
        }
        k = k + 1;
    }
    true
}

/// Whether a value stands in matching single or double quotes.
pub open spec fn quoted_value(v: Seq<char>) -> bool {
    v.len() > 0 && ((v[0] == '\'' && v.last() == '\'') || (v[0] == '"' && v.last() == '"'))
}

/// A value without the quotes it stands in, if any.
pub open spec fn unquoted(v: Seq<char>) -> Seq<char> {
    if quoted_value(v) {
        v.subrange(1, v.len() - 1)
    } else {
        v
    }
}

/// A value without the quotes it stands in (see `unquoted`).
pub fn unquote(v: String) -> (res: String)
    requires
        !(quoted_value(v@) && v@.len() == 1),
    ensures
        res@ == unquoted(v@),
{
    let cs = chars_of(v.as_str());
    if cs.len() > 0 && ((cs[0] == '\'' && cs[cs.len() - 1] == '\'') || (cs[0] == '"' && cs[cs.len() - 1] == '"')) {
        string_of_range(&cs, 1, cs.len() - 1)
    } else {
        v
    }
}


/// A value that is one quote character alone: cutting its first and last
/// character off would leave no valid range.
pub open spec fn lone_quote(v: Seq<char>) -> bool {
    v.len() == 1 && (v[0] == '\'' || v[0] == '"')
}

/// The state of a pass over the lines of a configuration file: the entries
/// found so far, the group being filled, and the indentation level.
pub struct ParseState {
    pub pairs: Seq<PairModel>,
    pub has_group: bool,
    pub group_key: Seq<char>,
    pub groups: Seq<Seq<PairModel>>,
    pub handle_multiple: bool,
    pub level: int,
}

/// The state at the start of a pass at indentation `level`, after `pairs`.
pub open spec fn start_state(level: int, pairs: Seq<PairModel>) -> ParseState {
    ParseState {
        pairs,
        has_group: false,
        group_key: Seq::empty(),
        groups: Seq::empty(),
        handle_multiple: true,
        level,
    }
}

/// `st` with the open group, if any, closed and added to its entries.
pub open spec fn flushed(st: ParseState) -> ParseState {
    if st.has_group {
        ParseState {
            pairs: st.pairs.push(PairModel::Multiple(st.group_key, st.groups)),
            has_group: false,
            group_key: Seq::empty(),
            groups: Seq::empty(),
            handle_multiple: st.handle_multiple,
            level: st.level,
        }
    } else {
        st
    }
}

/// A pass over `lines` from line `i` on, in state `st` (the last line is
/// never read). The result is the entries, the line at which the pass
/// stopped (`lines.len()` when it ran to the end), and `false` when it
/// reached a value that is a lone quote character.
pub open spec fn run_lines(lines: Seq<Seq<char>>, i: int, st: ParseState) -> (Seq<PairModel>, int, bool)
    decreases lines.len() + 1 - i, lines.len() + 1,
{
    let n = lines.len() as int;
    if i < 0 || i >= n - 1 {
        (flushed(st).pairs, n, true)
    } else if blank_or_comment(lines[i]) {
        run_lines(lines, i + 1, st)
    } else {
        match colon_split(lines[i]) {
            Some((key, value)) => {
                let st1 = flushed(st);
                let lc = lead_count(key) as int;
                let new_key = key.skip(lc);
                let new_value = value.skip(lead_count(value) as int);
                if lc < st.level {
                    (st1.pairs, i, true)
                } else if new_value.len() == 0 {
                    run_lines(
                        lines,
                        i + 1,
                        ParseState {
                            pairs: st1.pairs,
                            has_group: true,
                            group_key: new_key,
                            groups: Seq::empty(),
                            handle_multiple: true,
                            level: st.level,
                        },
                    )
                } else if lone_quote(new_value) {
                    (st1.pairs, i, false)
                } else {
                    run_lines(
                        lines,
                        i + 1,
                        ParseState {
                            pairs: st1.pairs.push(PairModel::Single(new_key, unquoted(new_value))),
                            has_group: false,
                            group_key: st1.group_key,
                            groups: st1.groups,
                            handle_multiple: false,
                            level: lc,
                        },
                    )
                }
            },
            None => {
                if st.handle_multiple && has_infix(lines[i], "-"@) {
                    let (st2, ok) = dash_blocks(lines, i, i, st);
                    if ok {
                        run_lines(lines, i + 1, st2)
                    } else {
                        (st2.pairs, i, false)
                    }
                } else {
                    (st.pairs, i, true)
                }
            },
        }
    }
}

/// Whether the block of nested entries under the dash line `i` goes on at line `j`.
pub open spec fn dash_goes_on(lines: Seq<Seq<char>>, i: int, j: int) -> bool {
    0 <= i <= j < lines.len() && lines[j] == lines[i] && !blank_or_comment(lines[j])
}

/// The nested passes that follow a dash line `i`, from line `j` on: each
/// one reads one level deeper, and what it finds becomes a group of the
/// open entry. The flag is `false` when one of them failed.
pub open spec fn dash_blocks(lines: Seq<Seq<char>>, i: int, j: int, st: ParseState) -> (ParseState, bool)
    decreases lines.len() + 1 - i, lines.len() - j,
{
    if !dash_goes_on(lines, i, j) {
        (st, true)
    } else {
        let sub = run_lines(lines, j + 1, start_state(st.level + 1, Seq::empty()));
        if !sub.2 {
            (st, false)
        } else {
            let st2 = if sub.0.len() > 0 && st.has_group {
                ParseState {
                    pairs: st.pairs,
                    has_group: st.has_group,
                    group_key: st.group_key,
                    groups: st.groups.push(sub.0),
                    handle_multiple: st.handle_multiple,
                    level: st.level,
                }
            } else {
                st
            };
            if sub.1 <= j || sub.1 > lines.len() {
                (st2, true)
            } else {
                dash_blocks(lines, i, sub.1, st2)
            }
        }
    }
}

/// A pass over `lines` from line `index` at indentation `level`, appending to `pairs`.
pub open spec fn config_run(lines: Seq<Seq<char>>, index: int, level: int, pairs: Seq<PairModel>) -> (Seq<PairModel>, int, bool) {
    run_lines(lines, index, start_state(level, pairs))
}

spec fn state_of(
    pairs: Seq<KapePair>,
    has_group: bool,
    key: Seq<char>,
    groups: Seq<Vec<KapePair>>,
    handle_multiple: bool,
    level: int,
) -> ParseState {
    ParseState {
        pairs: pairs_view(pairs),
        has_group,
        group_key: key,
        groups: groups_view(groups),
        handle_multiple,
        level,
    }
}

proof fn lemma_pairs_view_len(s: Seq<KapePair>)
    ensures
        pairs_view(s).len() == s.len(),
    decreases s.len(),
{
    if s.len() > 0 {
        lemma_pairs_view_len(s.drop_last());
    }
}

proof fn lemma_pairs_push(s: Seq<KapePair>, p: KapePair)
    ensures
        pairs_view(s.push(p)) == pairs_view(s).push(pair_view(p)),
{
    assert(s.push(p).drop_last() =~= s);
}

proof fn lemma_groups_push(s: Seq<Vec<KapePair>>, g: Vec<KapePair>)
    ensures
        groups_view(s.push(g)) == groups_view(s).push(pairs_view(g@)),
{
    assert(s.push(g).drop_last() =~= s);
}

fn dash_continues(lines: &Vec<String>, i: usize, j: usize) -> (res: bool)
    requires
        i < lines.len(),
        i <= j,
    ensures
        res == dash_goes_on(views(lines@), i as int, j as int),
{
    if j >= lines.len() {
        return false;
    }
    let same = lines[j] == lines[i];
    assert(views(lines@)[j as int] == lines@[j as int]@);
    assert(views(lines@)[i as int] == lines@[i as int]@);
    same && !is_empty_or_comment(lines[j].as_str())
}

/// Reads entries from `lines`, starting at line `index` with indentation
/// `level`, and appends them to `current_pair`; returns the line at which it
/// stopped, and `false` when it met a value that is a lone quote character.
/// Nested groups under a `-` line are read by a deeper pass each.
fn parse_config(index: usize, level: usize, current_pair: &mut Vec<KapePair>, lines: &Vec<String>) -> (res: (usize, bool))
    requires
        1 <= lines.len(),
        index <= lines.len(),
        level + (lines.len() - index) <= usize::MAX,
        forall|k: int| 0 <= k < lines.len() ==> #[trigger] lines@[k]@.len() + lines.len() <= usize::MAX,
    ensures
        (pairs_view(final(current_pair)@), res.0 as int, res.1)
            == config_run(views(lines@), index as int, level as int, pairs_view(old(current_pair)@)),
        index <= res.0 <= lines.len(),
    decreases lines.len() - index,
{
    let n = lines.len();
    let ghost ls = views(lines@);
    let ghost goal = config_run(ls, index as int, level as int, pairs_view(current_pair@));
    let mut cur_level = level;
    let mut has_group = false;
    let mut group_key = String::new();
    let mut groups: Vec<Vec<KapePair>> = Vec::new();
    let mut handle_multiple = true;
    let mut i = index;
    while i < n - 1
        invariant
            n == lines.len(),
            1 <= n,
            index <= i <= n,
            ls == views(lines@),
            cur_level + (n - i) <= usize::MAX,
            forall|k: int| 0 <= k < lines.len() ==> #[trigger] lines@[k]@.len() + lines.len() <= usize::MAX,
            run_lines(ls, i as int, state_of(current_pair@, has_group, group_key@, groups@, handle_multiple, cur_level as int)) == goal,
            goal == config_run(ls, index as int, level as int, pairs_view(old(current_pair)@)),
        decreases n - i,
    {
        let ghost st = state_of(current_pair@, has_group, group_key@, groups@, handle_multiple, cur_level as int);
        let line = &lines[i];
        assert(ls[i as int] == line@);
        if is_empty_or_comment(line.as_str()) {
            i = i + 1;
            continue;
        }
        match split_once(line.as_str()) {
            Some((key, value)) => {
                if has_group {
                    proof {
                        lemma_pairs_push(current_pair@, KapePair::Multiple(group_key, groups));
                    }
                    current_pair.push(KapePair::Multiple(group_key, groups));
                    group_key = String::new();
                    groups = Vec::new();
                    has_group = false;
                }
                assert(state_of(current_pair@, has_group, group_key@, groups@, handle_multiple, cur_level as int) == flushed(st));
                let (new_key, leading_count) = remove_leading_whitspaces(key.as_str());
                let (new_value, _) = remove_leading_whitspaces(value.as_str());
                if leading_count < cur_level {
                    return (i, true);
                } else if new_value.as_str().is_empty() {
                    group_key = new_key;
                    groups = Vec::new();
                    handle_multiple = true;
                    has_group = true;
                    i = i + 1;
                    continue;
                } else {
                    let cs = chars_of(new_value.as_str());
                    if cs.len() == 1 && (cs[0] == '\'' || cs[0] == '"') {
                        return (i, false);
                    }
                    cur_level = leading_count;
                    let v = unquote(new_value);
                    proof {
                        lemma_pairs_push(current_pair@, KapePair::Single(new_key, v));
                    }
                    current_pair.push(KapePair::Single(new_key, v));
                    handle_multiple = false;
                }
            },
            None => {
                if handle_multiple && contains(line.as_str(), "-") {
                    let ghost st_start = st;
                    let ghost whole = dash_blocks(ls, i as int, i as int, st_start);
                    assert(whole.1 ==> run_lines(ls, i + 1, whole.0) == goal);
                    assert(!whole.1 ==> (whole.0.pairs, i as int, false) == goal);
                    let mut j = i;
                    while dash_continues(lines, i, j)
                        invariant
                            n == lines.len(),
                            index <= i < n - 1,
                            i <= j <= n,
                            ls == views(lines@),
                            cur_level + (n - i) <= usize::MAX,
                            forall|k: int| 0 <= k < lines.len() ==> #[trigger] lines@[k]@.len() + lines.len() <= usize::MAX,
                            dash_blocks(ls, i as int, j as int, state_of(current_pair@, has_group, group_key@, groups@, handle_multiple, cur_level as int)) == whole,
                            whole.1 ==> run_lines(ls, i + 1, whole.0) == goal,
                            !whole.1 ==> (whole.0.pairs, i as int, false) == goal,
                            goal == config_run(ls, index as int, level as int, pairs_view(old(current_pair)@)),
                            st_start.level == cur_level as int,
                        decreases n - j,
                    {
                        let mut sub_pair: Vec<KapePair> = Vec::new();
                        assert(pairs_view(sub_pair@) == Seq::<PairModel>::empty());
                        let (r, ok) = parse_config(j + 1, cur_level + 1, &mut sub_pair, lines);
                        if !ok {
                            return (i, false);
                        }
                        proof {
                            lemma_pairs_view_len(sub_pair@);
                        }
                        if sub_pair.len() > 0 && has_group {
                            proof {
                                lemma_groups_push(groups@, sub_pair);
                            }
                            groups.push(sub_pair);
                        }
                        j = r;
                    }
                } else {
                    return (i, true);
                }
            },
        }
        i = i + 1;
    }
    if has_group {
        proof {
            lemma_pairs_push(current_pair@, KapePair::Multiple(group_key, groups));
        }
        current_pair.push(KapePair::Multiple(group_key, groups));
    }
    (n, true)
}


proof fn lemma_pairs_view_index(s: Seq<KapePair>, k: int)
    requires
        0 <= k < s.len(),
    ensures
        pairs_view(s).len() == s.len(),
        pairs_view(s)[k] == pair_view(s[k]),
    decreases s.len(),
{
    lemma_pairs_view_len(s);
    if k < s.len() - 1 {
        lemma_pairs_view_index(s.drop_last(), k);
    }
}

proof fn lemma_groups_view_index(s: Seq<Vec<KapePair>>, k: int)
    requires
        0 <= k < s.len(),
    ensures
        groups_view(s).len() == s.len(),
        groups_view(s)[k] == pairs_view(s[k]@),
    decreases s.len(),
{
    if k < s.len() - 1 {
        lemma_groups_view_index(s.drop_last(), k);
    } else {
        lemma_groups_view_len(s.drop_last());
    }
}

proof fn lemma_groups_view_len(s: Seq<Vec<KapePair>>)
    ensures
        groups_view(s).len() == s.len(),
    decreases s.len(),
{
    if s.len() > 0 {
        lemma_groups_view_len(s.drop_last());
    }
}

/// The entries that a whole configuration file holds, read from its first
/// line at indentation 0.
pub open spec fn kape_pairs(lines: Seq<Seq<char>>) -> Seq<PairModel> {
    config_run(lines, 0, 0, Seq::empty()).0
}

/// Whether a configuration file can be read: it has a line, and no value
/// that is read is a lone quote character.
pub open spec fn kape_readable(lines: Seq<Seq<char>>) -> bool {
    lines.len() >= 1 && config_run(lines, 0, 0, Seq::empty()).2
}

/// Reads the entries of a whole configuration file; `None` where it cannot
/// be read (see `kape_readable`).
fn read_pairs(lines: &Vec<String>) -> (res: Option<Vec<KapePair>>)
    requires
        forall|k: int| 0 <= k < lines.len() ==> #[trigger] lines@[k]@.len() + lines.len() <= usize::MAX,
    ensures
        res is Some <==> kape_readable(views(lines@)),
        res matches Some(v) ==> pairs_view(v@) == kape_pairs(views(lines@)),
{
    if lines.len() == 0 {
        return None;
    }
    let mut cur: Vec<KapePair> = Vec::new();
    assert(pairs_view(cur@) == Seq::<PairModel>::empty());
    let (_, ok) = parse_config(0, 0, &mut cur, lines);
    if ok {
        Some(cur)
    } else {
        None
    }
}

/// Whether a value reads as `true`: `true` or `True`; anything else is `false`.
pub open spec fn flag_value(v: Seq<char>) -> bool {
    v == "true"@ || v == "True"@
}

/// Reads a boolean value (see `flag_value`).
pub fn flag_of(value: &str) -> (res: bool)
    ensures
        res == flag_value(value@),
{
    same_text(value, "true") || same_text(value, "True")
}

/// A processor of a module file: the program to run and its command line.
pub struct MKapeEntry {
    pub executable: String,
    pub commad_line: String,
}

/// The content of a processor: its program and its command line.
pub struct ProcessorModel {
    pub executable: Seq<char>,
    pub command_line: Seq<char>,
}

impl View for MKapeEntry {
    type V = ProcessorModel;

    open spec fn view(&self) -> ProcessorModel {
        ProcessorModel { executable: self.executable@, command_line: self.commad_line@ }
    }
}

impl Default for MKapeEntry {
    fn default() -> (res: Self)
        ensures
            res@ == (ProcessorModel { executable: Seq::empty(), command_line: Seq::empty() }),
    {
        MKapeEntry { executable: String::new(), commad_line: String::new() }
    }
}

/// A processor after an entry whose lower-cased key is `lower_name`:
/// `executable` and `commandline` set their field, other keys change nothing.
pub open spec fn processor_field(p: ProcessorModel, lower_name: Seq<char>, value: Seq<char>) -> ProcessorModel {
    if lower_name == "executable"@ {
        ProcessorModel { executable: value, command_line: p.command_line }
    } else if lower_name == "commandline"@ {
        ProcessorModel { executable: p.executable, command_line: value }
    } else {
        p
    }
}

/// Sets the field of `processor` that the lower-cased key `lower_name` names.
pub fn set_processor_field(processor: &mut MKapeEntry, lower_name: &str, value: &str)
    ensures
        final(processor)@ == processor_field(old(processor)@, lower_name@, value@),
{
    if same_text(lower_name, "executable") {
        processor.executable = value.to_string();
    } else if same_text(lower_name, "commandline") {
        processor.commad_line = value.to_string();
    }
}

/// The processor that a group of entries describes: its single entries in
/// order, keys compared in lower case; a later entry overrides an earlier one.
pub open spec fn processor_of(group: Seq<PairModel>) -> ProcessorModel
    decreases group.len(),
{
    if group.len() == 0 {
        ProcessorModel { executable: Seq::empty(), command_line: Seq::empty() }
    } else {
        let p = processor_of(group.drop_last());
        match group.last() {
            PairModel::Single(name, value) => processor_field(p, unicode_lowered(name), value),
            PairModel::Multiple(_, _) => p,
        }
    }
}

/// The processors that the entries of a module file list: one per group
/// under each `Processors` (or `processors`) key, in order.
pub open spec fn processors_of(pairs: Seq<PairModel>) -> Seq<ProcessorModel>
    decreases pairs.len(),
{
    if pairs.len() == 0 {
        Seq::empty()
    } else {
        let rest = processors_of(pairs.drop_last());
        match pairs.last() {
            PairModel::Multiple(key, groups) => {
                if key == "Processors"@ || key == "processors"@ {
                    rest + groups.map_values(|g: Seq<PairModel>| processor_of(g))
                } else {
                    rest
                }
            },
            PairModel::Single(_, _) => rest,
        }
    }
}

fn processor_from_group(group: &Vec<KapePair>) -> (res: MKapeEntry)
    ensures
        res@ == processor_of(pairs_view(group@)),
{
    let mut processor = MKapeEntry::default();
    let mut k: usize = 0;
    while k < group.len()
        invariant
            k <= group.len(),
            processor@ == processor_of(pairs_view(group@).take(k as int)),
        decreases group.len() - k,
    {
        proof {
            lemma_pairs_view_index(group@, k as int);
            assert(pairs_view(group@).take(k + 1).drop_last() =~= pairs_view(group@).take(k as int));
        }
        match &group[k] {
            KapePair::Single(name, value) => {
                let lower_name = to_lowercase(name.as_str());
                set_processor_field(&mut processor, lower_name.as_str(), value.as_str());
            },
            KapePair::Multiple(_, _) => {},
        }
        k = k + 1;
    }
    proof {
        lemma_pairs_view_len(group@);
        assert(pairs_view(group@).take(group.len() as int) =~= pairs_view(group@));
    }
    processor
}

/// The processors of a module (`.mkape`) file, given its lines: one per
/// group under a `Processors` key. `None` where the lines cannot be read
/// (see `kape_readable`).
pub fn parse_mkape(lines: &Vec<String>) -> (res: Option<Vec<MKapeEntry>>)
    requires
        forall|k: int| 0 <= k < lines.len() ==> #[trigger] lines@[k]@.len() + lines.len() <= usize::MAX,
    ensures
        res is Some <==> kape_readable(views(lines@)),
        res matches Some(v) ==> v@.map_values(|e: MKapeEntry| e@) == processors_of(kape_pairs(views(lines@))),
{
    let cur = match read_pairs(lines) {
        Some(cur) => cur,
        None => return None,
    };
    let ghost pv = pairs_view(cur@);
    let mut kapes: Vec<MKapeEntry> = Vec::new();
    let mut k: usize = 0;
    while k < cur.len()
        invariant
            k <= cur.len(),
            pv == pairs_view(cur@),
            kapes@.map_values(|e: MKapeEntry| e@) == processors_of(pv.take(k as int)),
        decreases cur.len() - k,
    {
        proof {
            lemma_pairs_view_index(cur@, k as int);
            assert(pv.take(k + 1).drop_last() =~= pv.take(k as int));
        }
        match &cur[k] {
            KapePair::Multiple(x, y) => {
                if same_text(x.as_str(), "Processors") || same_text(x.as_str(), "processors") {
                    let ghost base = kapes@.map_values(|e: MKapeEntry| e@);
                    let mut g: usize = 0;
                    while g < y.len()
                        invariant
                            g <= y.len(),
                            kapes@.map_values(|e: MKapeEntry| e@)
                                == base + groups_view(y@).take(g as int).map_values(|gr: Seq<PairModel>| processor_of(gr)),
                        decreases y.len() - g,
                    {
                        proof {
                            lemma_groups_view_index(y@, g as int);
                        }
                        let processor = processor_from_group(&y[g]);
                        let ghost before = kapes@;
                        let ghost pm = processor@;
                        kapes.push(processor);
                        assert(kapes@.map_values(|e: MKapeEntry| e@) =~= before.map_values(|e: MKapeEntry| e@).push(pm));
                        assert(groups_view(y@).take(g + 1) =~= groups_view(y@).take(g as int).push(groups_view(y@)[g as int]));
                        g = g + 1;
                        assert(kapes@.map_values(|e: MKapeEntry| e@)
                            =~= base + groups_view(y@).take(g as int).map_values(|gr: Seq<PairModel>| processor_of(gr)));
                    }
                    proof {
                        lemma_groups_view_len(y@);
                        assert(groups_view(y@).take(y.len() as int) =~= groups_view(y@));
                    }
                }
            },
            KapePair::Single(_, _) => {},
        }
        k = k + 1;
    }
    proof {
        lemma_pairs_view_len(cur@);
        assert(pv.take(cur.len() as int) =~= pv);
    }
    Some(kapes)
}

/// A target of a target file: where to look and which files to take.
pub struct JSONTarget {
    pub name: String,
    pub comment: String,
    pub category: String,
    pub path: String,
    pub file_mask: String,
    pub recursive: bool,
}

/// The content of a target.
pub struct TargetModel {
    pub name: Seq<char>,
    pub comment: Seq<char>,
    pub category: Seq<char>,
    pub path: Seq<char>,
    pub file_mask: Seq<char>,
    pub recursive: bool,
}

impl View for JSONTarget {
    type V = TargetModel;

    open spec fn view(&self) -> TargetModel {
        TargetModel {
            name: self.name@,
            comment: self.comment@,
            category: self.category@,
            path: self.path@,
            file_mask: self.file_mask@,
            recursive: self.recursive,
        }
    }
}

/// The target with every text empty and `recursive` false.
pub open spec fn empty_target() -> TargetModel {
    TargetModel {
        name: Seq::empty(),
        comment: Seq::empty(),
        category: Seq::empty(),
        path: Seq::empty(),
        file_mask: Seq::empty(),
        recursive: false,
    }
}

impl Default for JSONTarget {
    fn default() -> (res: Self)
        ensures
            res@ == empty_target(),
    {
        JSONTarget {
            name: String::new(),
            comment: String::new(),
            category: String::new(),
            path: String::new(),
            file_mask: String::new(),
            recursive: false,
        }
    }
}

/// A target after an entry whose lower-cased key is `lower_name`: `name`,
/// `comment`, `category`, `path`, `filemask` and `recursive` set their field;
/// other keys change nothing.
pub open spec fn target_field(t: TargetModel, lower_name: Seq<char>, value: Seq<char>) -> TargetModel {
    if lower_name == "name"@ {
        TargetModel { name: value, ..t }
    } else if lower_name == "comment"@ {
        TargetModel { comment: value, ..t }
    } else if lower_name == "category"@ {
        TargetModel { category: value, ..t }
    } else if lower_name == "path"@ {
        TargetModel { path: value, ..t }
    } else if lower_name == "filemask"@ {
        TargetModel { file_mask: value, ..t }
    } else if lower_name == "recursive"@ {
        TargetModel { recursive: flag_value(value), ..t }
    } else {
        t
    }
}

/// Sets the field of `target` that the lower-cased key `lower_name` names.
pub fn set_target_field(target: &mut JSONTarget, lower_name: &str, value: &str)
    ensures
        final(target)@ == target_field(old(target)@, lower_name@, value@),
{
    if same_text(lower_name, "name") {
        target.name = value.to_string();
    } else if same_text(lower_name, "comment") {
        target.comment = value.to_string();
    } else if same_text(lower_name, "category") {
        target.category = value.to_string();
    } else if same_text(lower_name, "path") {
        target.path = value.to_string();
    } else if same_text(lower_name, "filemask") {
        target.file_mask = value.to_string();
    } else if same_text(lower_name, "recursive") {
        target.recursive = flag_of(value);
    }
}

/// The target that a group of entries describes: its single entries in
/// order, keys compared in lower case; a later entry overrides an earlier one.
pub open spec fn target_of(group: Seq<PairModel>) -> TargetModel
    decreases group.len(),
{
    if group.len() == 0 {
        empty_target()
    } else {
        let t = target_of(group.drop_last());
        match group.last() {
            PairModel::Single(name, value) => target_field(t, unicode_lowered(name), value),
            PairModel::Multiple(_, _) => t,
        }
    }
}

fn target_from_group(group: &Vec<KapePair>) -> (res: JSONTarget)
    ensures
        res@ == target_of(pairs_view(group@)),
{
    let mut target = JSONTarget::default();
    let mut k: usize = 0;
    while k < group.len()
        invariant
            k <= group.len(),
            target@ == target_of(pairs_view(group@).take(k as int)),
        decreases group.len() - k,
    {
        proof {
            lemma_pairs_view_index(group@, k as int);
            assert(pairs_view(group@).take(k + 1).drop_last() =~= pairs_view(group@).take(k as int));
        }
        match &group[k] {
            KapePair::Single(name, value) => {
                let lower_name = to_lowercase(name.as_str());
                set_target_field(&mut target, lower_name.as_str(), value.as_str());
            },
            KapePair::Multiple(_, _) => {},
        }
        k = k + 1;
    }
    proof {
        lemma_pairs_view_len(group@);
        assert(pairs_view(group@).take(group.len() as int) =~= pairs_view(group@));
    }
    target
}

/// A target file: its description, whether directories are recreated, and
/// its targets.
pub struct TKapeEntry {
    pub description: String,
    pub recreate_directories: bool,
    pub targets: Vec<JSONTarget>,
}

/// The content of a target file.
pub struct TKapeModel {
    pub description: Seq<char>,
    pub recreate_directories: bool,
    pub targets: Seq<TargetModel>,
}

impl View for TKapeEntry {
    type V = TKapeModel;

    open spec fn view(&self) -> TKapeModel {
        TKapeModel {
            description: self.description@,
            recreate_directories: self.recreate_directories,
            targets: self.targets@.map_values(|t: JSONTarget| t@),
        }
    }
}

/// The target file with no description, no targets, and directories not recreated.
pub open spec fn empty_tkape() -> TKapeModel {
    TKapeModel { description: Seq::empty(), recreate_directories: false, targets: Seq::empty() }
}

impl Default for TKapeEntry {
    fn default() -> (res: Self)
        ensures
            res@ == empty_tkape(),
    {
        let res = TKapeEntry { description: String::new(), recreate_directories: false, targets: Vec::new() };
        assert(res@.targets =~= Seq::<TargetModel>::empty());
        res
    }
}

/// A target file after one top-level entry: a `Targets` (or `targets`) key
/// adds a target per group; a `Description` entry sets the description and a
/// `RecreateDirectories` entry the flag (these two keys are compared as
/// written); anything else changes nothing.
pub open spec fn tkape_step(e: TKapeModel, p: PairModel) -> TKapeModel {
    match p {
        PairModel::Multiple(key, groups) => {
            if key == "Targets"@ || key == "targets"@ {
                TKapeModel { targets: e.targets + groups.map_values(|g: Seq<PairModel>| target_of(g)), ..e }
            } else {
                e
            }
        },
        PairModel::Single(name, value) => {
            if name == "Description"@ {
                TKapeModel { description: value, ..e }
            } else if name == "RecreateDirectories"@ {
                TKapeModel { recreate_directories: flag_value(value), ..e }
            } else {
                e
            }
        },
    }
}

/// The target file that a sequence of top-level entries describes.
pub open spec fn tkape_of(pairs: Seq<PairModel>) -> TKapeModel
    decreases pairs.len(),
{
    if pairs.len() == 0 {
        empty_tkape()
    } else {
        tkape_step(tkape_of(pairs.drop_last()), pairs.last())
    }
}

/// The target file (`.tkape`) that the given lines describe. `None` where
/// the lines cannot be read (see `kape_readable`).
pub fn parse_tkape(lines: &Vec<String>) -> (res: Option<TKapeEntry>)
    requires
        forall|k: int| 0 <= k < lines.len() ==> #[trigger] lines@[k]@.len() + lines.len() <= usize::MAX,
    ensures
        res is Some <==> kape_readable(views(lines@)),
        res matches Some(e) ==> e@ == tkape_of(kape_pairs(views(lines@))),
{
    let cur = match read_pairs(lines) {
        Some(cur) => cur,
        None => return None,
    };
    let ghost pv = pairs_view(cur@);
    let mut entry = TKapeEntry::default();
    let mut k: usize = 0;
    while k < cur.len()
        invariant
            k <= cur.len(),
            pv == pairs_view(cur@),
            entry@ == tkape_of(pv.take(k as int)),
        decreases cur.len() - k,
    {
        proof {
            lemma_pairs_view_index(cur@, k as int);
            assert(pv.take(k + 1).drop_last() =~= pv.take(k as int));
        }
        match &cur[k] {
            KapePair::Multiple(x, y) => {
                if same_text(x.as_str(), "Targets") || same_text(x.as_str(), "targets") {
                    let ghost base = entry@;
                    let mut g: usize = 0;
                    while g < y.len()
                        invariant
                            g <= y.len(),
                            entry@.description == base.description,
                            entry@.recreate_directories == base.recreate_directories,
                            entry@.targets == base.targets + groups_view(y@).take(g as int).map_values(|gr: Seq<PairModel>| target_of(gr)),
                        decreases y.len() - g,
                    {
                        proof {
                            lemma_groups_view_index(y@, g as int);
                        }
                        let target = target_from_group(&y[g]);
                        let ghost before = entry.targets@;
                        let ghost tm = target@;
                        entry.targets.push(target);
                        assert(entry.targets@.map_values(|t: JSONTarget| t@) =~= before.map_values(|t: JSONTarget| t@).push(tm));
                        assert(groups_view(y@).take(g + 1) =~= groups_view(y@).take(g as int).push(groups_view(y@)[g as int]));
                        g = g + 1;
                        assert(entry@.targets =~= base.targets + groups_view(y@).take(g as int).map_values(|gr: Seq<PairModel>| target_of(gr)));
                    }
                    proof {
                        lemma_groups_view_len(y@);
                        assert(groups_view(y@).take(y.len() as int) =~= groups_view(y@));
                    }
                }
            },
            KapePair::Single(name, value) => {
                if same_text(name.as_str(), "Description") {
                    entry.description = value.clone();
                } else if same_text(name.as_str(), "RecreateDirectories") {
                    entry.recreate_directories = flag_of(value.as_str());
                }
            },
        }
        k = k + 1;
    }
    proof {
        lemma_pairs_view_len(cur@);
        assert(pv.take(cur.len() as int) =~= pv);
    }
    Some(entry)
}

/// The two kinds of configuration file that are converted.
#[derive(PartialEq, Eq, Structural)]
pub enum KapeFileKind {
    Module,
    Target,
}

/// The kind of configuration file at `path`, by the extension of its file
/// name: `mkape` for a module file, `tkape` for a target file.
pub open spec fn kape_kind_of(path: Seq<char>) -> Option<KapeFileKind> {
    match file_name_of(path) {
        Some(f) => match extension_of(f) {
            Some(e) => {
                if e == "mkape"@ {
                    Some(KapeFileKind::Module)
                } else if e == "tkape"@ {
                    Some(KapeFileKind::Target)
                } else {
                    None
                }
            },
            None => None,
        },
        None => None,
    }
}

/// The kind of configuration file at `path` (see `kape_kind_of`); `None` for
/// a file that is not converted.
pub fn kape_file_kind(path: &str) -> (res: Option<KapeFileKind>)
    ensures
        res == kape_kind_of(path@),
{
    let f = match file_name(path) {
        Some(f) => f,
        None => return None,
    };
    let k = match ext_dot_exec(f.as_str()) {
        Some(k) => k,
        None => return None,
    };
    let cs = chars_of(f.as_str());
    assert(k < cs.len());
    let e = string_of_range(&cs, k + 1, cs.len());
    assert(f@.subrange(k + 1, cs.len() as int) =~= f@.skip(k + 1));
    if same_text(e.as_str(), "mkape") {
        Some(KapeFileKind::Module)
    } else if same_text(e.as_str(), "tkape") {
        Some(KapeFileKind::Target)
    } else {
        None
    }
}

/// The keys of a target group that set a text field of the target.
pub open spec fn text_key(key: Seq<char>) -> bool {
    key == "name"@ || key == "comment"@ || key == "category"@ || key == "path"@ || key == "filemask"@
}

/// The text field of a target that the key `key` names.
pub open spec fn text_field(t: TargetModel, key: Seq<char>) -> Seq<char> {
    if key == "name"@ {
        t.name
    } else if key == "comment"@ {
        t.comment
    } else if key == "category"@ {
        t.category
    } else if key == "path"@ {
        t.path
    } else {
        t.file_mask
    }
}

/// Whether an entry of a group is a single value under the key `key`
/// (its name lower-cased).
pub open spec fn entry_under(p: PairModel, key: Seq<char>) -> bool {
    p matches PairModel::Single(n, _) && unicode_lowered(n) == key
}

proof fn lemma_target_field_cases(t: TargetModel, k: Seq<char>, v: Seq<char>, key: Seq<char>)
    ensures
        text_key(key) && k == key ==> text_field(target_field(t, k, v), key) == v,
        text_key(key) && k != key ==> text_field(target_field(t, k, v), key) == text_field(t, key),
        k == "recursive"@ ==> target_field(t, k, v).recursive == flag_value(v),
        k != "recursive"@ ==> target_field(t, k, v).recursive == t.recursive,
{
    reveal_strlit("name");
    reveal_strlit("comment");
    reveal_strlit("category");
    reveal_strlit("path");
    reveal_strlit("filemask");
    reveal_strlit("recursive");
    if k == "recursive"@ {
        assert(k.len() == 9);
        assert(k != "name"@ && k != "path"@ && k != "comment"@);
        assert(k != "category"@ && k != "filemask"@);
    }
}

/// In a target group, the last single entry under each of the keys `name`,
/// `comment`, `category`, `path` and `filemask` (case aside) gives the
/// target's field of that name, and the last one under `recursive` gives
/// its recursive flag; entries under other keys, and earlier ones, do not
/// count.
pub proof fn law_target_entry_sets_its_field(group: Seq<PairModel>, i: int, name: Seq<char>, value: Seq<char>)
    requires
        0 <= i < group.len(),
        group[i] == PairModel::Single(name, value),
        forall|j: int| i < j < group.len() ==> !entry_under(#[trigger] group[j], unicode_lowered(name)),
    ensures
        text_key(unicode_lowered(name)) ==> text_field(target_of(group), unicode_lowered(name)) == value,
        unicode_lowered(name) == "recursive"@ ==> target_of(group).recursive == flag_value(value),
    decreases group.len(),
{
    let key = unicode_lowered(name);
    let t = target_of(group.drop_last());
    if i == group.len() - 1 {
        lemma_target_field_cases(t, key, value, key);
    } else {
        assert forall|j: int| i < j < group.drop_last().len() implies !entry_under(#[trigger] group.drop_last()[j], key) by {
            assert(group.drop_last()[j] == group[j]);
        }
        assert(group.drop_last()[i] == group[i]);
        law_target_entry_sets_its_field(group.drop_last(), i, name, value);
        assert(!entry_under(group[group.len() - 1], key));
        match group.last() {
            PairModel::Single(n2, v2) => {
                lemma_target_field_cases(t, unicode_lowered(n2), v2, key);
            },
            PairModel::Multiple(_, _) => {},
        }
    }
}

} // verus!

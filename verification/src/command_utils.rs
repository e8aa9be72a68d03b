//! Splitting a line of a custom-commands file into program arguments.
//!
//! A double-quoted group (quotes kept) is one argument. The text between
//! quoted groups is one argument too, with surrounding white space removed,
//! and is dropped when nothing but white space is left of it.

use vstd::prelude::*;
use crate::text::{trimmed, views, chars_of, trim, push_char};

verus! {

/// What is known after reading part of a command line: whether a quoted group
/// is open, the text read since the last boundary, and the finished arguments.
pub struct ScanState {
    pub quoted: bool,
    pub current: Seq<char>,
    pub args: Seq<Seq<char>>,
}

/// `args` with the unquoted text `current` added when it holds more than white space.
pub open spec fn flush_plain(args: Seq<Seq<char>>, current: Seq<char>) -> Seq<Seq<char>> {
    if trimmed(current).len() > 0 {
        args.push(trimmed(current))
    } else {
        args
    }
}

/// The state after reading one more character `c`.
pub open spec fn scan_step(st: ScanState, c: char) -> ScanState {
    if c == '"' {
        if !st.quoted {
            ScanState { quoted: true, current: seq!['"'], args: flush_plain(st.args, st.current) }
        } else {
            ScanState { quoted: false, current: Seq::empty(), args: st.args.push(st.current.push('"')) }
        }
    } else {
        ScanState { current: st.current.push(c), ..st }
    }
}

/// The state after reading all of `s`.
pub open spec fn scan(s: Seq<char>) -> ScanState
    decreases s.len(),
{
    if s.len() == 0 {
        ScanState { quoted: false, current: Seq::empty(), args: Seq::empty() }
    } else {
        scan_step(scan(s.drop_last()), s.last())
    }
}

/// The arguments of the command line `s`; a quoted group left open runs to the end.
pub open spec fn command_args(s: Seq<char>) -> Seq<Seq<char>> {
    let st = scan(s);
    if st.quoted {
        st.args.push(st.current)
    } else {
        flush_plain(st.args, st.current)
    }
}

/// Splits `command` into its arguments (see `command_args`).
pub fn parse_command(command: &str) -> (result: Vec<String>)
    ensures
        views(result@) == command_args(command@),
{
    let cs = chars_of(command);
    let mut result: Vec<String> = Vec::new();
    let mut quoted = false;
    let mut current = String::new();
    let mut i: usize = 0;
    assert(command@.take(0).len() == 0);
    assert(views(result@) =~= Seq::<Seq<char>>::empty());
    assert(current@ =~= Seq::<char>::empty());
    while i < cs.len()
        invariant
            cs@ == command@,
            i <= cs.len(),
            scan(command@.take(i as int)) == (ScanState {
                quoted,
                current: current@,
                args: views(result@),
            }),
        decreases cs.len() - i,
    {
        let c = cs[i];
        assert(command@.take(i + 1).drop_last() =~= command@.take(i as int));
        let ghost before = views(result@);
        if c == '"' {
            if !quoted {
                let t = trim(current.as_str());
                if t.unicode_len() > 0 {
                    result.push(t);
                }
                assert(views(result@) =~= flush_plain(before, current@));
                current = String::new();
                push_char(&mut current, '"');
                assert(current@ =~= seq!['"']);
                quoted = true;
            } else {
                push_char(&mut current, '"');
                result.push(current);
                assert(views(result@) =~= before.push(current@));
                current = String::new();
                quoted = false;
            }
        } else {
            push_char(&mut current, c);
        }
        i = i + 1;
    }
    assert(command@.take(i as int) =~= command@);
    let ghost before = views(result@);
    if quoted {
        result.push(current);
        assert(views(result@) =~= before.push(current@));
    } else {
        let t = trim(current.as_str());
        if t.unicode_len() > 0 {
            result.push(t);
        }
        assert(views(result@) =~= flush_plain(before, current@));
    }
    result
}

proof fn lemma_scan_plain(s: Seq<char>, k: int)
    requires
        0 <= k <= s.len(),
        forall|i: int| 0 <= i < s.len() ==> #[trigger] s[i] != '"',
    ensures
        scan(s.take(k)) == (ScanState { quoted: false, current: s.take(k), args: Seq::empty() }),
    decreases k,
{
    if k == 0 {
        assert(s.take(0) =~= Seq::<char>::empty());
    } else {
        lemma_scan_plain(s, k - 1);
        assert(s.take(k).drop_last() =~= s.take(k - 1));
        assert(s.take(k).last() == s[k - 1]);
        assert(s.take(k - 1).push(s[k - 1]) =~= s.take(k));
    }
}

proof fn lemma_scan_open_quote(s: Seq<char>, k: int)
    requires
        0 <= k <= s.len(),
        forall|i: int| 0 <= i < s.len() ==> #[trigger] s[i] != '"',
    ensures
        scan(seq!['"'] + s.take(k)) == (ScanState { quoted: true, current: seq!['"'] + s.take(k), args: Seq::empty() }),
    decreases k,
{
    if k == 0 {
        let one = seq!['"'];
        assert(seq!['"'] + s.take(0) =~= one);
        assert(one.drop_last() =~= Seq::<char>::empty());
        assert(one.last() == '"');
        assert(trimmed(Seq::<char>::empty()) =~= Seq::<char>::empty());
        let st0 = scan(Seq::<char>::empty());
        assert(st0 == (ScanState { quoted: false, current: Seq::<char>::empty(), args: Seq::<Seq<char>>::empty() }));
        assert(flush_plain(Seq::<Seq<char>>::empty(), Seq::<char>::empty()) =~= Seq::<Seq<char>>::empty());
        assert(scan(one) == scan_step(st0, '"'));
    } else {
        lemma_scan_open_quote(s, k - 1);
        assert((seq!['"'] + s.take(k)).drop_last() =~= seq!['"'] + s.take(k - 1));
        assert((seq!['"'] + s.take(k)).last() == s[k - 1]);
        assert((seq!['"'] + s.take(k - 1)).push(s[k - 1]) =~= seq!['"'] + s.take(k));
    }
}

/// A line without quotes is one argument, its surrounding white space
/// removed, or none when it is nothing but white space.
pub proof fn law_unquoted_line_is_one_argument(s: Seq<char>)
    requires
        forall|i: int| 0 <= i < s.len() ==> #[trigger] s[i] != '"',
    ensures
        command_args(s) == (if trimmed(s).len() > 0 { seq![trimmed(s)] } else { Seq::<Seq<char>>::empty() }),
{
    lemma_scan_plain(s, s.len() as int);
    assert(s.take(s.len() as int) =~= s);
    if trimmed(s).len() > 0 {
        assert(Seq::<Seq<char>>::empty().push(trimmed(s)) =~= seq![trimmed(s)]);
    }
}

/// A double-quoted group with no quote inside is one argument, quotes kept.
pub proof fn law_quoted_group_is_one_argument(s: Seq<char>)
    requires
        forall|i: int| 0 <= i < s.len() ==> #[trigger] s[i] != '"',
    ensures
        command_args(seq!['"'] + s + seq!['"']) == seq![seq!['"'] + s + seq!['"']],
{
    let q = seq!['"'] + s + seq!['"'];
    lemma_scan_open_quote(s, s.len() as int);
    assert(s.take(s.len() as int) =~= s);
    assert(q.drop_last() =~= seq!['"'] + s);
    assert(q.last() == '"');
    assert((seq!['"'] + s).push('"') =~= q);
    assert(trimmed(Seq::<char>::empty()) =~= Seq::<char>::empty());
    assert(Seq::<Seq<char>>::empty().push(q) =~= seq![q]);
}

} // verus!

//! Small text helpers.

use vstd::prelude::*;
use crate::text::{concat3, replace_all, replaced, lemma_replaced_removes, lemma_replaced_keeps_out};

verus! {

/// Text that can be put in double quotes.
pub trait Quoted {
    /// The text in double quotes.
    spec fn quoted_view(&self) -> Seq<char>;

    /// The text in double quotes.
    fn quoted(&self) -> (res: String)
        ensures
            res@ == self.quoted_view(),
    ;
}

impl Quoted for str {
    open spec fn quoted_view(&self) -> Seq<char> {
        "\""@ + self@ + "\""@
    }

    fn quoted(&self) -> (res: String) {
        concat3("\"", self, "\"")
    }
}

/// A path turned into a name that NTFS accepts for a single file: `*` becomes
/// `--S--`, `?` becomes `--Q--`, `:` is dropped, and `\` and `/` become `-`.
pub open spec fn ntfs_name(path: Seq<char>) -> Seq<char> {
    replaced(
        replaced(
            replaced(replaced(replaced(path, "*"@, "--S--"@), "?"@, "--Q--"@), ":"@, ""@),
            "\\"@,
            "-"@,
        ),
        "/"@,
        "-"@,
    )
}

/// A path turned into a file name (see `ntfs_name`).
pub fn path_join_to_string_ntfs(path: &str) -> (res: String)
    ensures
        res@ == ntfs_name(path@),
{
    proof {
        reveal_strlit("*");
        reveal_strlit("?");
        reveal_strlit(":");
        reveal_strlit("\\");
        reveal_strlit("/");
    }
    let a = replace_all(path, "*", "--S--");
    let b = replace_all(a.as_str(), "?", "--Q--");
    let c = replace_all(b.as_str(), ":", "");
    let d = replace_all(c.as_str(), "\\", "-");
    replace_all(d.as_str(), "/", "-")
}

/// A path turned into a file name holds none of `*`, `?`, `:`, `\` and `/`:
/// it names one file in one directory, whatever path it came from.
pub proof fn law_ntfs_name_is_one_component(path: Seq<char>)
    ensures
        !ntfs_name(path).contains('*'),
        !ntfs_name(path).contains('?'),
        !ntfs_name(path).contains(':'),
        !ntfs_name(path).contains('\\'),
        !ntfs_name(path).contains('/'),
{
    reveal_strlit("*");
    reveal_strlit("?");
    reveal_strlit(":");
    reveal_strlit("\\");
    reveal_strlit("/");
    reveal_strlit("--S--");
    reveal_strlit("--Q--");
    reveal_strlit("");
    reveal_strlit("-");
    let s_sub = "--S--"@;
    let q_sub = "--Q--"@;
    let dash = "-"@;
    let none = ""@;
    assert(none.len() == 0);
    assert forall|c: char| c != '-' && c != 'S' implies !s_sub.contains(c) by {
        assert forall|i: int| 0 <= i < s_sub.len() implies s_sub[i] != c by {}
    }
    assert forall|c: char| c != '-' && c != 'Q' implies !q_sub.contains(c) by {
        assert forall|i: int| 0 <= i < q_sub.len() implies q_sub[i] != c by {}
    }
    assert forall|c: char| c != '-' implies !dash.contains(c) by {
        assert forall|i: int| 0 <= i < dash.len() implies dash[i] != c by {}
    }
    let a = replaced(path, seq!['*'], s_sub);
    lemma_replaced_removes(path, '*', s_sub);
    let b = replaced(a, seq!['?'], q_sub);
    lemma_replaced_removes(a, '?', q_sub);
    lemma_replaced_keeps_out(a, seq!['?'], q_sub, '*');
    let c = replaced(b, seq![':'], none);
    lemma_replaced_removes(b, ':', none);
    lemma_replaced_keeps_out(b, seq![':'], none, '*');
    lemma_replaced_keeps_out(b, seq![':'], none, '?');
    let d = replaced(c, seq!['\\'], dash);
    lemma_replaced_removes(c, '\\', dash);
    lemma_replaced_keeps_out(c, seq!['\\'], dash, '*');
    lemma_replaced_keeps_out(c, seq!['\\'], dash, '?');
    lemma_replaced_keeps_out(c, seq!['\\'], dash, ':');
    lemma_replaced_removes(d, '/', dash);
    lemma_replaced_keeps_out(d, seq!['/'], dash, '*');
    lemma_replaced_keeps_out(d, seq!['/'], dash, '?');
    lemma_replaced_keeps_out(d, seq!['/'], dash, ':');
    lemma_replaced_keeps_out(d, seq!['/'], dash, '\\');
    assert("*"@ == seq!['*']);
    assert("?"@ == seq!['?']);
    assert(":"@ == seq![':']);
    assert("\\"@ == seq!['\\']);
    assert("/"@ == seq!['/']);
}

} // verus!

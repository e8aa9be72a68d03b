//! Names of the parts of a split archive.

use vstd::prelude::*;
use crate::text::{decimal, usize_to_string, concat3, all_digits, digits_value, is_digit, lemma_decimal_value, lemma_leading_zero};
use crate::winpath::{file_name_of, is_sep, stem_of, extension_of, parent_part, lemma_dotted_suffix};

verus! {

/// The name of part `part` of the split archive `path`: the part number with
/// at least three digits after a `.`.
pub open spec fn part_name(path: Seq<char>, part: nat) -> Seq<char> {
    if part < 10 {
        path + ".00"@ + decimal(part)
    } else if part < 100 {
        path + ".0"@ + decimal(part)
    } else {
        path + "."@ + decimal(part)
    }
}

/// The name of part `part` of the split archive `path` (see `part_name`).
pub fn path_to_part(path: &str, part: usize) -> (res: String)
    ensures
        res@ == part_name(path@, part as nat),
{
    let n = usize_to_string(part);
    if part < 10 {
        concat3(path, ".00", n.as_str())
    } else if part < 100 {
        concat3(path, ".0", n.as_str())
    } else {
        concat3(path, ".", n.as_str())
    }
}

/// A part path gives back what it was made of: its file name is the
/// archive's file name with `.` and digits added, so its stem is the
/// archive's file name, its extension is all digits and denotes the part
/// number, and it lies in the archive's directory.
pub proof fn law_part_name_round_trip(path: Seq<char>, part: nat)
    requires
        file_name_of(path) is Some,
        path.len() > 0 ==> !is_sep(path.last()),
    ensures
        file_name_of(part_name(path, part)) is Some,
        stem_of(file_name_of(part_name(path, part))->Some_0) == file_name_of(path)->Some_0,
        extension_of(file_name_of(part_name(path, part))->Some_0) matches Some(e) && all_digits(e)
            && digits_value(e) == part,
        parent_part(part_name(path, part)) == parent_part(path),
{
    reveal_strlit(".00");
    reveal_strlit(".0");
    reveal_strlit(".");
    lemma_decimal_value(part);
    let dec = decimal(part);
    let zeros: Seq<char> = if part < 10 {
        seq!['0', '0']
    } else if part < 100 {
        seq!['0']
    } else {
        Seq::empty()
    };
    let e = zeros + dec;
    let y = seq!['.'] + e;
    if part < 10 {
        assert(".00"@ =~= seq!['.'] + zeros);
        lemma_leading_zero(dec);
        lemma_leading_zero(seq!['0'] + dec);
        assert(e =~= seq!['0'] + (seq!['0'] + dec));
    } else if part < 100 {
        assert(".0"@ =~= seq!['.'] + zeros);
        lemma_leading_zero(dec);
        assert(e =~= seq!['0'] + dec);
    } else {
        assert("."@ =~= seq!['.'] + zeros);
        assert(e =~= dec);
    }
    assert(part_name(path, part) =~= path + y);
    assert forall|i: int| 0 <= i < e.len() implies is_digit(#[trigger] e[i]) by {
        if i >= zeros.len() {
            assert(e[i] == dec[i - zeros.len()]);
        }
    }
    assert forall|i: int| 0 <= i < y.len() implies !is_sep(#[trigger] y[i]) by {
        if i > 0 {
            assert(y[i] == e[i - 1]);
            assert(is_digit(e[i - 1]));
        }
    }
    assert forall|i: int| 1 <= i < y.len() implies #[trigger] y[i] != '.' by {
        assert(y[i] == e[i - 1]);
        assert(is_digit(e[i - 1]));
    }
    assert(y.last() != ':') by {
        assert(y.last() == e[e.len() - 1]);
        assert(is_digit(e[e.len() - 1]));
    }
    lemma_dotted_suffix(path, y);
    assert(y.drop_first() =~= e);
}

} // verus!

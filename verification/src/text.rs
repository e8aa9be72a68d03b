//! Verified string primitives used throughout the crate.

use vstd::prelude::*;

verus! {

/// Whether `p` occurs in `s` starting at position `i`.
pub open spec fn occurs_at(s: Seq<char>, p: Seq<char>, i: int) -> bool {
    0 <= i && i + p.len() <= s.len() && s.subrange(i, i + p.len()) =~= p
}

/// Whether `s` begins with `p`.
pub open spec fn has_prefix(s: Seq<char>, p: Seq<char>) -> bool {
    occurs_at(s, p, 0)
}

/// Whether `s` ends with `p`.
pub open spec fn has_suffix(s: Seq<char>, p: Seq<char>) -> bool {
    occurs_at(s, p, s.len() - p.len())
}

/// Whether `p` occurs anywhere in `s`.
pub open spec fn has_infix(s: Seq<char>, p: Seq<char>) -> bool {
    exists|i: int| occurs_at(s, p, i)
}

/// `s` with every non-overlapping occurrence of the non-empty `pat`, scanned
/// from the left, replaced by `with`.
pub open spec fn replaced(s: Seq<char>, pat: Seq<char>, with: Seq<char>) -> Seq<char>
    decreases s.len(),
{
    if s.len() == 0 || pat.len() == 0 {
        s
    } else if has_prefix(s, pat) {
        with + replaced(s.skip(pat.len() as int), pat, with)
    } else {
        seq![s[0]] + replaced(s.skip(1), pat, with)
    }
}

/// `s` with the first occurrence of the non-empty `pat` replaced by `with`.
pub open spec fn replaced_first(s: Seq<char>, pat: Seq<char>, with: Seq<char>) -> Seq<char>
    decreases s.len(),
{
    if s.len() == 0 || pat.len() == 0 {
        s
    } else if has_prefix(s, pat) {
        with + s.skip(pat.len() as int)
    } else {
        seq![s[0]] + replaced_first(s.skip(1), pat, with)
    }
}

/// A character that `char::is_whitespace` accepts (the Unicode White_Space set).
pub open spec fn is_white(c: char) -> bool {
    let u = c as u32;
    ||| 0x09 <= u <= 0x0D
    ||| u == 0x20
    ||| u == 0x85
    ||| u == 0xA0
    ||| u == 0x1680
    ||| 0x2000 <= u <= 0x200A
    ||| u == 0x2028
    ||| u == 0x2029
    ||| u == 0x202F
    ||| u == 0x205F
    ||| u == 0x3000
}

/// A character that `u8::is_ascii_whitespace` accepts.
pub open spec fn is_ascii_white(c: char) -> bool {
    c == ' ' || c == '\t' || c == '\n' || c == '\x0C' || c == '\r'
}

/// `s` without its leading white space.
pub open spec fn trim_start_seq(s: Seq<char>) -> Seq<char>
    decreases s.len(),
{
    if s.len() > 0 && is_white(s[0]) {
        trim_start_seq(s.drop_first())
    } else {
        s
    }
}

/// `s` without its trailing white space.
pub open spec fn trim_end_seq(s: Seq<char>) -> Seq<char>
    decreases s.len(),
{
    if s.len() > 0 && is_white(s.last()) {
        trim_end_seq(s.drop_last())
    } else {
        s
    }
}

/// `s` without leading and trailing white space, as `str::trim` gives it.
pub open spec fn trimmed(s: Seq<char>) -> Seq<char> {
    trim_end_seq(trim_start_seq(s))
}

/// The ASCII lower-case form of one character.
pub open spec fn ascii_lower_char(c: char) -> char {
    if 'A' <= c && c <= 'Z' {
        ((c as u32) + 32) as char
    } else {
        c
    }
}

/// `s` with the ASCII upper-case letters turned into lower case.
pub open spec fn ascii_lowered(s: Seq<char>) -> Seq<char> {
    s.map_values(|c: char| ascii_lower_char(c))
}

/// The pieces of `parts` put one after another with `sep` between them.
pub open spec fn joined(parts: Seq<Seq<char>>, sep: Seq<char>) -> Seq<char>
    decreases parts.len(),
{
    if parts.len() == 0 {
        Seq::empty()
    } else if parts.len() == 1 {
        parts[0]
    } else {
        joined(parts.drop_last(), sep) + sep + parts.last()
    }
}

/// The views of a vector of strings.
pub open spec fn views(v: Seq<String>) -> Seq<Seq<char>> {
    v.map_values(|s: String| s@)
}

/// The result of `str::to_lowercase`: the full Unicode lower-case mapping.
pub uninterp spec fn unicode_lowered(s: Seq<char>) -> Seq<char>;

/// Appends one character to a string with `String::push`; the string grows by
/// exactly that character, as its documentation says.
#[verifier::external_body]
pub(crate) fn push_char(s: &mut String, c: char)
    ensures
        final(s)@ == old(s)@.push(c),
{
    s.push(c);
}

/// Lower-cases a string with `str::to_lowercase`. The Unicode case mapping is
/// not written out here; the result is named by `unicode_lowered`.
#[verifier::external_body]
pub(crate) fn to_lowercase(s: &str) -> (res: String)
    ensures
        res@ == unicode_lowered(s@),
{
    s.to_lowercase()
}

/// The result of `str::to_uppercase`: the full Unicode upper-case mapping.
pub uninterp spec fn unicode_uppered(s: Seq<char>) -> Seq<char>;

/// Upper-cases a string with `str::to_uppercase`. The Unicode case mapping is
/// not written out here; the result is named by `unicode_uppered`.
#[verifier::external_body]
pub(crate) fn to_uppercase(s: &str) -> (res: String)
    ensures
        res@ == unicode_uppered(s@),
{
    s.to_uppercase()
}

/// A fresh string holding the characters of `s`.
pub fn owned(s: &str) -> (res: String)
    ensures
        res@ == s@,
{
    String::from_str(s)
}

/// Whether two strings hold the same characters.
pub fn same_text(a: &str, b: &str) -> (res: bool)
    ensures
        res == (a@ == b@),
{
    let x = owned(a);
    let y = owned(b);
    x == y
}

/// The string made of `a` followed by `b`.
pub fn concat2(a: &str, b: &str) -> (res: String)
    ensures
        res@ == a@ + b@,
{
    let mut r = String::from_str(a);
    r.append(b);
    r
}

/// The string made of `a`, `b` and `c` one after another.
pub fn concat3(a: &str, b: &str, c: &str) -> (res: String)
    ensures
        res@ == a@ + b@ + c@,
{
    let mut r = String::from_str(a);
    r.append(b);
    r.append(c);
    r
}

/// The characters of `s` as a vector.
pub fn chars_of(s: &str) -> (res: Vec<char>)
    ensures
        res@ == s@,
{
    let n = s.unicode_len();
    let mut res: Vec<char> = Vec::new();
    let mut i: usize = 0;
    while i < n
        invariant
            n == s@.len(),
            i <= n,
            res@ =~= s@.take(i as int),
        decreases n - i,
    {
        let c = s.get_char(i);
        res.push(c);
        i = i + 1;
    }
    res
}

/// The string made of the characters `cs[from..to]`.
pub fn string_of_range(cs: &Vec<char>, from: usize, to: usize) -> (res: String)
    requires
        from <= to <= cs.len(),
    ensures
        res@ == cs@.subrange(from as int, to as int),
{
    let mut res = String::new();
    let mut i = from;
    while i < to
        invariant
            from <= i <= to <= cs.len(),
            res@ =~= cs@.subrange(from as int, i as int),
        decreases to - i,
    {
        push_char(&mut res, cs[i]);
        i = i + 1;
    }
    res
}

/// Whether `p` occurs in `s` at position `i`.
pub fn occurs_at_exec(s: &Vec<char>, p: &Vec<char>, i: usize) -> (res: bool)
    ensures
        res == occurs_at(s@, p@, i as int),
{
    if i > s.len() || p.len() > s.len() - i {
        return false;
    }
    let mut k: usize = 0;
    while k < p.len()
        invariant
            i + p.len() <= s.len(),
            k <= p.len(),
            forall|j: int| 0 <= j < k ==> s@[i + j] == p@[j],
        decreases p.len() - k,
    {
        if s[i + k] != p[k] {
            assert(s@.subrange(i as int, i + p.len())[k as int] != p@[k as int]);
            return false;
        }
        k = k + 1;
    }
    assert(s@.subrange(i as int, i + p.len()) =~= p@);
    true
}

/// Whether `s` begins with `p`.
pub fn starts_with(s: &str, p: &str) -> (res: bool)
    ensures
        res == has_prefix(s@, p@),
{
    let cs = chars_of(s);
    let ps = chars_of(p);
    occurs_at_exec(&cs, &ps, 0)
}

/// Whether `s` ends with `p`.
pub fn ends_with(s: &str, p: &str) -> (res: bool)
    ensures
        res == has_suffix(s@, p@),
{
    let cs = chars_of(s);
    let ps = chars_of(p);
    if ps.len() > cs.len() {
        return false;
    }
    occurs_at_exec(&cs, &ps, cs.len() - ps.len())
}

/// Whether `p` occurs anywhere in `s`.
pub fn contains(s: &str, p: &str) -> (res: bool)
    ensures
        res == has_infix(s@, p@),
{
    let cs = chars_of(s);
    let ps = chars_of(p);
    if ps.len() > cs.len() {
        assert forall|i: int| !occurs_at(s@, p@, i) by {}
        return false;
    }
    let mut i: usize = 0;
    while i <= cs.len() - ps.len()
        invariant
            cs@ == s@,
            ps@ == p@,
            ps.len() <= cs.len(),
            i <= cs.len() - ps.len() + 1,
            forall|j: int| 0 <= j < i ==> !occurs_at(s@, p@, j),
        decreases cs.len() - ps.len() + 1 - i,
    {
        if occurs_at_exec(&cs, &ps, i) {
            return true;
        }
        i = i + 1;
    }
    assert forall|j: int| !occurs_at(s@, p@, j) by {}
    false
}


proof fn lemma_replaced_step(s: Seq<char>, pat: Seq<char>, with: Seq<char>, i: int)
    requires
        pat.len() > 0,
        0 <= i < s.len(),
    ensures
        has_prefix(s.skip(i), pat) ==> replaced(s.skip(i), pat, with) == with + replaced(
            s.skip(i + pat.len()),
            pat,
            with,
        ),
        !has_prefix(s.skip(i), pat) ==> replaced(s.skip(i), pat, with) == seq![s[i]] + replaced(
            s.skip(i + 1),
            pat,
            with,
        ),
{
    let t = s.skip(i);
    assert(t.len() > 0);
    if has_prefix(t, pat) {
        assert(t.skip(pat.len() as int) =~= s.skip(i + pat.len()));
    } else {
        assert(t.skip(1) =~= s.skip(i + 1));
    }
}

/// `s` with every non-overlapping occurrence of `pat` replaced by `with`,
/// as `str::replace` does for a non-empty pattern.
pub fn replace_all(s: &str, pat: &str, with: &str) -> (res: String)
    requires
        pat@.len() > 0,
    ensures
        res@ == replaced(s@, pat@, with@),
{
    let cs = chars_of(s);
    let ps = chars_of(pat);
    let mut res = String::new();
    let mut i: usize = 0;
    assert(s@.skip(0) =~= s@);
    assert(res@ + replaced(s@, pat@, with@) =~= replaced(s@, pat@, with@));
    while i < cs.len()
        invariant
            cs@ == s@,
            ps@ == pat@,
            ps.len() > 0,
            i <= cs.len(),
            res@ + replaced(s@.skip(i as int), pat@, with@) == replaced(s@, pat@, with@),
        decreases cs.len() - i,
    {
        proof {
            lemma_replaced_step(s@, pat@, with@, i as int);
        }
        if occurs_at_exec(&cs, &ps, i) {
            assert(s@.skip(i as int).subrange(0, pat@.len() as int) =~= s@.subrange(
                i as int,
                i + pat@.len(),
            ));
            let ghost before = res@;
            res.append(with);
            assert(res@ + replaced(s@.skip(i + ps.len()), pat@, with@) =~= before + (with@
                + replaced(s@.skip(i + ps.len()), pat@, with@)));
            i = i + ps.len();
        } else {
            assert(!has_prefix(s@.skip(i as int), pat@)) by {
                if has_prefix(s@.skip(i as int), pat@) {
                    assert(s@.skip(i as int).subrange(0, pat@.len() as int) =~= s@.subrange(
                        i as int,
                        i + pat@.len(),
                    ));
                }
            }
            let ghost before = res@;
            push_char(&mut res, cs[i]);
            assert(res@ + replaced(s@.skip(i + 1), pat@, with@) =~= before + (seq![s@[i as int]]
                + replaced(s@.skip(i + 1), pat@, with@)));
            i = i + 1;
        }
    }
    assert(s@.skip(i as int).len() == 0);
    res
}


/// `s` with the first occurrence of `pat` replaced by `with`, as
/// `str::replacen(pat, with, 1)` does for a non-empty pattern.
pub fn replace_first(s: &str, pat: &str, with: &str) -> (res: String)
    requires
        pat@.len() > 0,
    ensures
        res@ == replaced_first(s@, pat@, with@),
{
    let cs = chars_of(s);
    let ps = chars_of(pat);
    let mut i: usize = 0;
    assert(s@.skip(0) =~= s@);
    while i < cs.len()
        invariant
            cs@ == s@,
            ps@ == pat@,
            ps.len() > 0,
            i <= cs.len(),
            replaced_first(s@, pat@, with@) == s@.take(i as int) + replaced_first(
                s@.skip(i as int),
                pat@,
                with@,
            ),
        decreases cs.len() - i,
    {
        let t = Ghost(s@.skip(i as int));
        assert(t@.subrange(0, pat@.len() as int) =~= s@.subrange(i as int, i + pat@.len())
            || i + pat@.len() > s@.len());
        if occurs_at_exec(&cs, &ps, i) {
            assert(has_prefix(t@, pat@));
            assert(t@.skip(pat@.len() as int) =~= s@.skip(i + pat@.len()));
            let mut res = string_of_range(&cs, 0, i);
            res.append(with);
            let rest = string_of_range(&cs, i + ps.len(), cs.len());
            res.append(rest.as_str());
            assert(s@.subrange(i + pat@.len(), s@.len() as int) =~= s@.skip(i + pat@.len()));
            assert(s@.subrange(0, i as int) =~= s@.take(i as int));
            assert(res@ =~= s@.take(i as int) + (with@ + s@.skip(i + pat@.len())));
            return res;
        }
        assert(!has_prefix(t@, pat@));
        assert(t@.skip(1) =~= s@.skip(i + 1));
        assert(s@.take(i as int) + (seq![s@[i as int]] + replaced_first(s@.skip(i + 1), pat@, with@))
            =~= s@.take(i + 1) + replaced_first(s@.skip(i + 1), pat@, with@));
        i = i + 1;
    }
    assert(s@.take(i as int) =~= s@);
    owned(s)
}

/// Whether `c` is white space in the sense of `char::is_whitespace`.
pub fn is_white_exec(c: char) -> (res: bool)
    ensures
        res == is_white(c),
{
    let u = c as u32;
    (0x09 <= u && u <= 0x0D) || u == 0x20 || u == 0x85 || u == 0xA0 || u == 0x1680 || (0x2000
        <= u && u <= 0x200A) || u == 0x2028 || u == 0x2029 || u == 0x202F || u == 0x205F || u
        == 0x3000
}

proof fn lemma_trim_start_skip(s: Seq<char>, i: int)
    requires
        0 <= i <= s.len(),
        forall|j: int| 0 <= j < i ==> is_white(#[trigger] s[j]),
    ensures
        trim_start_seq(s) == trim_start_seq(s.skip(i)),
    decreases i,
{
    if i > 0 {
        assert(s.drop_first().skip(i - 1) =~= s.skip(i));
        assert forall|j: int| 0 <= j < i - 1 implies is_white(#[trigger] s.drop_first()[j]) by {
            assert(s.drop_first()[j] == s[j + 1]);
        }
        lemma_trim_start_skip(s.drop_first(), i - 1);
    } else {
        assert(s.skip(0) =~= s);
    }
}

proof fn lemma_trim_end_take(s: Seq<char>, k: int)
    requires
        0 <= k <= s.len(),
        forall|j: int| k <= j < s.len() ==> is_white(#[trigger] s[j]),
    ensures
        trim_end_seq(s) == trim_end_seq(s.take(k)),
    decreases s.len() - k,
{
    if k < s.len() {
        assert(s.drop_last().take(k) =~= s.take(k));
        assert forall|j: int| k <= j < s.drop_last().len() implies is_white(
            #[trigger] s.drop_last()[j],
        ) by {
            assert(s.drop_last()[j] == s[j]);
        }
        lemma_trim_end_take(s.drop_last(), k);
    } else {
        assert(s.take(k) =~= s);
    }
}

/// `s` without leading and trailing white space, as `str::trim` gives it.
pub fn trim(s: &str) -> (res: String)
    ensures
        res@ == trimmed(s@),
{
    let cs = chars_of(s);
    let mut start: usize = 0;
    while start < cs.len() && is_white_exec(cs[start])
        invariant
            cs@ == s@,
            start <= cs.len(),
            forall|j: int| 0 <= j < start ==> is_white(#[trigger] s@[j]),
        decreases cs.len() - start,
    {
        start = start + 1;
    }
    proof {
        lemma_trim_start_skip(s@, start as int);
    }
    let ghost rest = s@.skip(start as int);
    assert(trim_start_seq(rest) == rest);
    let mut end: usize = cs.len();
    while end > start && is_white_exec(cs[end - 1])
        invariant
            cs@ == s@,
            start <= end <= cs.len(),
            rest == s@.skip(start as int),
            forall|j: int| end - start <= j < rest.len() ==> is_white(#[trigger] rest[j]),
        decreases end,
    {
        assert(rest[end - 1 - start] == s@[end - 1]);
        end = end - 1;
    }
    proof {
        lemma_trim_end_take(rest, end - start);
        let r = rest.take(end - start);
        if r.len() > 0 {
            assert(r.last() == s@[end - 1]);
        }
        assert(trim_end_seq(r) == r);
        assert(r =~= s@.subrange(start as int, end as int));
    }
    string_of_range(&cs, start, end)
}

/// `s` with its ASCII upper-case letters turned into lower case, as
/// `str::to_ascii_lowercase` gives it.
pub fn to_ascii_lowercase(s: &str) -> (res: String)
    ensures
        res@ == ascii_lowered(s@),
{
    let cs = chars_of(s);
    let mut res = String::new();
    let mut i: usize = 0;
    while i < cs.len()
        invariant
            cs@ == s@,
            i <= cs.len(),
            res@ =~= ascii_lowered(s@.take(i as int)),
        decreases cs.len() - i,
    {
        let c = cs[i];
        let l = if 'A' <= c && c <= 'Z' {
            let u = (c as u32) + 32;
            char_from_u32(u)
        } else {
            c
        };
        push_char(&mut res, l);
        assert(ascii_lowered(s@.take(i + 1)) =~= ascii_lowered(s@.take(i as int)).push(
            ascii_lower_char(c),
        ));
        i = i + 1;
    }
    assert(s@.take(i as int) =~= s@);
    res
}

/// The character whose code point is `u`, for a `u` that lies in the ASCII
/// range.
fn char_from_u32(u: u32) -> (c: char)
    requires
        u < 0x80,
    ensures
        c as u32 == u,
{
    (u as u8) as char
}

/// The strings of `parts` put one after another with `sep` between them, as
/// `[String]::join` gives it.
pub fn join(parts: &Vec<String>, sep: &str) -> (res: String)
    ensures
        res@ == joined(views(parts@), sep@),
{
    let mut res = String::new();
    let ghost vs = views(parts@);
    let mut i: usize = 0;
    while i < parts.len()
        invariant
            vs == views(parts@),
            i <= parts.len(),
            res@ == joined(vs.take(i as int), sep@),
        decreases parts.len() - i,
    {
        assert(vs.take(i + 1).drop_last() =~= vs.take(i as int));
        if i > 0 {
            res.append(sep);
        }
        res.append(parts[i].as_str());
        proof {
            if i == 0 {
                assert(joined(vs.take(0), sep@) =~= Seq::<char>::empty());
                assert(res@ =~= vs.take(1)[0]);
            }
        }
        i = i + 1;
    }
    assert(vs.take(i as int) =~= vs);
    res
}


/// The digit character for `d < 10`.
pub open spec fn digit_char(d: nat) -> char {
    ((d + 48) as u32) as char
}

/// The decimal numeral of `n`, without leading zeros.
pub open spec fn decimal(n: nat) -> Seq<char>
    decreases n,
{
    if n < 10 {
        seq![digit_char(n)]
    } else {
        decimal(n / 10).push(digit_char(n % 10))
    }
}

/// The decimal numeral of `n`, as `format!("{}", n)` writes it.
pub fn usize_to_string(n: usize) -> (res: String)
    ensures
        res@ == decimal(n as nat),
    decreases n,
{
    if n < 10 {
        let mut s = String::new();
        push_char(&mut s, char_from_u32((n as u32) + 48));
        assert(s@ =~= seq![digit_char(n as nat)]);
        s
    } else {
        let mut s = usize_to_string(n / 10);
        push_char(&mut s, char_from_u32(((n % 10) as u32) + 48));
        s
    }
}

/// Whether `c` is an ASCII digit.
pub open spec fn is_digit(c: char) -> bool {
    '0' <= c && c <= '9'
}

/// The number that the digits `s` denote.
pub open spec fn digits_value(s: Seq<char>) -> nat
    decreases s.len(),
{
    if s.len() == 0 {
        0
    } else {
        digits_value(s.drop_last()) * 10 + ((s.last() as u32) - 48) as nat
    }
}

/// Whether every character of `s` is an ASCII digit.
pub open spec fn all_digits(s: Seq<char>) -> bool {
    forall|i: int| 0 <= i < s.len() ==> is_digit(#[trigger] s[i])
}

/// The numeral of `n` is made of digits and denotes `n`.
pub proof fn lemma_decimal_value(n: nat)
    ensures
        all_digits(decimal(n)),
        digits_value(decimal(n)) == n,
        decimal(n).len() > 0,
    decreases n,
{
    let d = n % 10;
    assert((digit_char(d) as u32) - 48 == d);
    assert(digits_value(Seq::<char>::empty()) == 0);
    if n < 10 {
        assert(decimal(n).drop_last() =~= Seq::<char>::empty());
        assert(d == n);
        assert(decimal(n).last() == digit_char(n));
    } else {
        lemma_decimal_value(n / 10);
        let s = decimal(n);
        assert(s.drop_last() =~= decimal(n / 10));
        assert(s.last() == digit_char(d));
        vstd::arithmetic::div_mod::lemma_fundamental_div_mod(n as int, 10);
        assert forall|i: int| 0 <= i < s.len() implies is_digit(#[trigger] s[i]) by {
            if i < s.len() - 1 {
                assert(s[i] == decimal(n / 10)[i]);
            }
        }
    }
}

/// Leading zeros do not change the number that digits denote.
pub proof fn lemma_leading_zero(s: Seq<char>)
    ensures
        digits_value(seq!['0'] + s) == digits_value(s),
    decreases s.len(),
{
    assert(('0' as u32) == 48);
    assert(digits_value(Seq::<char>::empty()) == 0);
    if s.len() == 0 {
        assert(seq!['0'] + s =~= seq!['0']);
        assert(seq!['0'].drop_last() =~= Seq::<char>::empty());
    } else {
        lemma_leading_zero(s.drop_last());
        assert((seq!['0'] + s).drop_last() =~= seq!['0'] + s.drop_last());
        assert((seq!['0'] + s).last() == s.last());
    }
}

/// The digits of a numeral, after an optional leading `+`.
pub open spec fn unsigned_digits(s: Seq<char>) -> Seq<char> {
    if s.len() > 0 && s[0] == '+' {
        s.drop_first()
    } else {
        s
    }
}

/// What `str::parse::<u32>` gives: an optional `+`, then one or more ASCII
/// digits whose value fits in a `u32`.
pub open spec fn parsed_u32(s: Seq<char>) -> Option<u32> {
    let d = unsigned_digits(s);
    if d.len() > 0 && (forall|i: int| 0 <= i < d.len() ==> is_digit(#[trigger] d[i]))
        && digits_value(d) <= u32::MAX {
        Some(digits_value(d) as u32)
    } else {
        None
    }
}

/// Parses an unsigned 32-bit decimal number (see `parsed_u32`).
pub fn parse_u32(s: &str) -> (res: Option<u32>)
    ensures
        res == parsed_u32(s@),
{
    let cs = chars_of(s);
    let start: usize = if cs.len() > 0 && cs[0] == '+' { 1 } else { 0 };
    let ghost d = unsigned_digits(s@);
    assert(d =~= s@.skip(start as int));
    if start >= cs.len() {
        return None;
    }
    let mut acc: u64 = 0;
    let mut i = start;
    let cap: u64 = 0x1_0000_0000;
    assert(d.take(0) =~= Seq::<char>::empty());
    while i < cs.len()
        invariant
            cs@ == s@,
            start <= i <= cs.len(),
            d == s@.skip(start as int),
            d == unsigned_digits(s@),
            cap == u32::MAX + 1,
            forall|j: int| 0 <= j < i - start ==> is_digit(#[trigger] d[j]),
            acc == if digits_value(d.take(i - start)) < cap {
                digits_value(d.take(i - start))
            } else {
                cap as nat
            },
        decreases cs.len() - i,
    {
        let c = cs[i];
        if !('0' <= c && c <= '9') {
            assert(d[i - start] == c);
            assert(!is_digit(d[i - start]));
            assert(d.len() == cs.len() - start);
            assert(!(forall|j: int| 0 <= j < d.len() ==> is_digit(#[trigger] d[j])));
            assert(unsigned_digits(s@) == d);
            return None;
        }
        let dig = (c as u32 - 48) as u64;
        let ghost prev = d.take(i - start);
        assert(d.take(i + 1 - start).drop_last() =~= prev);
        assert(d.take(i + 1 - start).last() == c);
        if acc >= cap {
            assert(digits_value(prev) * 10 >= digits_value(prev)) by (nonlinear_arith);
        } else {
            let next = acc * 10 + dig;
            acc = if next >= cap { cap } else { next };
        }
        i = i + 1;
    }
    assert(d.take(i - start) =~= d);
    if acc >= cap {
        None
    } else {
        Some(acc as u32)
    }
}


/// Appends a copy of `s` to the vector of strings `v`.
pub fn push_str(v: &mut Vec<String>, s: &str)
    ensures
        views(final(v)@) == views(old(v)@).push(s@),
{
    let ghost before = v@;
    v.push(String::from_str(s));
    assert(views(v@) =~= views(before).push(s@));
}

/// Appends the strings of `w` to `v`.
pub fn append_all(v: &mut Vec<String>, w: Vec<String>)
    ensures
        views(final(v)@) == views(old(v)@) + views(w@),
{
    let ghost before = v@;
    let ghost w0 = w@;
    let mut w = w;
    v.append(&mut w);
    assert(v@ =~= before + w0);
    assert(views(v@) =~= views(before) + views(w0));
}

/// The pieces of `s` before the last separator `c`, and the text after it.
pub open spec fn split_scan(s: Seq<char>, c: char) -> (Seq<Seq<char>>, Seq<char>)
    decreases s.len(),
{
    if s.len() == 0 {
        (Seq::empty(), Seq::empty())
    } else {
        let (ps, cur) = split_scan(s.drop_last(), c);
        if s.last() == c {
            (ps.push(cur), Seq::empty())
        } else {
            (ps, cur.push(s.last()))
        }
    }
}

/// The pieces of `s` between the occurrences of `c`, as `str::split` gives
/// them: at least one, empty ones included.
pub open spec fn pieces(s: Seq<char>, c: char) -> Seq<Seq<char>> {
    split_scan(s, c).0.push(split_scan(s, c).1)
}

/// The pieces of `s` between the occurrences of `c` (see `pieces`).
pub fn split_char(s: &str, c: char) -> (res: Vec<String>)
    ensures
        views(res@) == pieces(s@, c),
{
    let cs = chars_of(s);
    let mut parts: Vec<String> = Vec::new();
    let mut cur = String::new();
    let mut i: usize = 0;
    while i < cs.len()
        invariant
            cs@ == s@,
            i <= cs.len(),
            (views(parts@), cur@) == split_scan(s@.take(i as int), c),
        decreases cs.len() - i,
    {
        assert(s@.take(i + 1).drop_last() =~= s@.take(i as int));
        assert(s@.take(i + 1).last() == cs@[i as int]);
        if cs[i] == c {
            let ghost before = views(parts@);
            let ghost cv = cur@;
            parts.push(cur);
            assert(views(parts@) =~= before.push(cv));
            cur = String::new();
        } else {
            push_char(&mut cur, cs[i]);
        }
        i = i + 1;
    }
    assert(s@.take(cs.len() as int) =~= s@);
    let ghost before = views(parts@);
    let ghost cv = cur@;
    parts.push(cur);
    assert(views(parts@) =~= before.push(cv));
    parts
}

proof fn lemma_concat_lacks(a: Seq<char>, b: Seq<char>, d: char)
    requires
        !a.contains(d),
        !b.contains(d),
    ensures
        !(a + b).contains(d),
{
    assert forall|i: int| 0 <= i < (a + b).len() implies (a + b)[i] != d by {
        if i < a.len() {
            assert((a + b)[i] == a[i]);
        } else {
            assert((a + b)[i] == b[i - a.len()]);
        }
    }
}

proof fn lemma_skip_lacks(s: Seq<char>, k: int, d: char)
    requires
        0 <= k <= s.len(),
        !s.contains(d),
    ensures
        !s.skip(k).contains(d),
{
    assert forall|i: int| 0 <= i < s.skip(k).len() implies s.skip(k)[i] != d by {
        assert(s.skip(k)[i] == s[i + k]);
    }
}

/// A character that neither `s` nor `with` holds is not in `replaced(s, pat, with)`.
pub proof fn lemma_replaced_keeps_out(s: Seq<char>, pat: Seq<char>, with: Seq<char>, d: char)
    requires
        !s.contains(d),
        !with.contains(d),
    ensures
        !replaced(s, pat, with).contains(d),
    decreases s.len(),
{
    if s.len() == 0 || pat.len() == 0 {
    } else if has_prefix(s, pat) {
        lemma_skip_lacks(s, pat.len() as int, d);
        lemma_replaced_keeps_out(s.skip(pat.len() as int), pat, with, d);
        lemma_concat_lacks(with, replaced(s.skip(pat.len() as int), pat, with), d);
    } else {
        lemma_skip_lacks(s, 1, d);
        lemma_replaced_keeps_out(s.skip(1), pat, with, d);
        assert(!seq![s[0]].contains(d)) by {
            assert(s[0] != d);
        }
        lemma_concat_lacks(seq![s[0]], replaced(s.skip(1), pat, with), d);
    }
}

/// Replacing every `c` by a text without `c` leaves no `c`.
pub proof fn lemma_replaced_removes(s: Seq<char>, c: char, with: Seq<char>)
    requires
        !with.contains(c),
    ensures
        !replaced(s, seq![c], with).contains(c),
    decreases s.len(),
{
    if s.len() == 0 {
    } else if has_prefix(s, seq![c]) {
        lemma_replaced_removes(s.skip(1), c, with);
        lemma_concat_lacks(with, replaced(s.skip(1), seq![c], with), c);
    } else {
        assert(s.subrange(0, 1) =~= seq![s[0]]);
        assert(s[0] != c);
        lemma_replaced_removes(s.skip(1), c, with);
        assert(!seq![s[0]].contains(c));
        lemma_concat_lacks(seq![s[0]], replaced(s.skip(1), seq![c], with), c);
    }
}

/// Replacing the first occurrence of one character replaces the character
/// at its first position, and nothing else.
pub proof fn lemma_replaced_first_char(s: Seq<char>, c: char, with: Seq<char>, k: int)
    requires
        0 <= k < s.len(),
        s[k] == c,
        forall|j: int| 0 <= j < k ==> #[trigger] s[j] != c,
    ensures
        replaced_first(s, seq![c], with) == s.take(k) + with + s.skip(k + 1),
    decreases k,
{
    if k == 0 {
        assert(s.subrange(0, 1) =~= seq![c]);
        assert(s.take(0) + with =~= with);
    } else {
        assert(s.subrange(0, 1)[0] == s[0]);
        assert(!(s.subrange(0, 1) =~= seq![c]));
        assert forall|j: int| 0 <= j < k - 1 implies #[trigger] s.skip(1)[j] != c by {
            assert(s.skip(1)[j] == s[j + 1]);
        }
        lemma_replaced_first_char(s.skip(1), c, with, k - 1);
        assert(seq![s[0]] + (s.skip(1).take(k - 1) + with + s.skip(1).skip(k)) =~= s.take(k) + with + s.skip(k + 1));
    }
}

/// Replacing the first occurrence of a character that does not occur
/// leaves the text as it is.
pub proof fn lemma_replaced_first_absent(s: Seq<char>, c: char, with: Seq<char>)
    requires
        !s.contains(c),
    ensures
        replaced_first(s, seq![c], with) == s,
    decreases s.len(),
{
    if s.len() > 0 {
        assert(s.subrange(0, 1)[0] == s[0]);
        assert(!(s.subrange(0, 1) =~= seq![c]));
        assert(!s.skip(1).contains(c)) by {
            if s.skip(1).contains(c) {
                let j = choose|j: int| 0 <= j < s.skip(1).len() && s.skip(1)[j] == c;
                assert(s[j + 1] == c);
            }
        }
        lemma_replaced_first_absent(s.skip(1), c, with);
        assert(seq![s[0]] + s.skip(1) =~= s);
    }
}

} // verus!

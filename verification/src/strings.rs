//! Verified helpers over `&str` and `String`: character-level comparison,
//! prefix tests, substrings and concatenation, expressed against the
//! `Seq<char>` views that the rest of the crate's contracts use.

use vstd::prelude::*;
use vstd::string::StrSliceExecFns;
use vstd::string::StringExecFns;

verus! {

/// `p` is a prefix of `s`.
pub open spec fn spec_starts_with(s: Seq<char>, p: Seq<char>) -> bool {
    p.len() <= s.len() && s.subrange(0, p.len() as int) == p
}

/// Character-for-character equality of two string slices.
pub fn str_eq(a: &str, b: &str) -> (r: bool)
    ensures
        r == (a@ == b@),
{
    let a_len = a.unicode_len();
    let b_len = b.unicode_len();
    if a_len != b_len {
        return false;
    }
    let mut i: usize = 0;
    while i < a_len
        invariant
            i <= a_len,
            a_len == a@.len(),
            a_len == b@.len(),
            forall|j: int| 0 <= j < i ==> a@[j] == b@[j],
        decreases a_len - i,
    {
        if a.get_char(i) != b.get_char(i) {
            return false;
        }
        i += 1;
    }
    proof {
        assert(a@ =~= b@);
    }
    true
}

/// Does `s` start with `p`?
pub fn str_starts_with(s: &str, p: &str) -> (r: bool)
    ensures
        r == spec_starts_with(s@, p@),
{
    let s_len = s.unicode_len();
    let p_len = p.unicode_len();
    if p_len > s_len {
        return false;
    }
    let mut i: usize = 0;
    while i < p_len
        invariant
            i <= p_len,
            p_len <= s_len,
            s_len == s@.len(),
            p_len == p@.len(),
            forall|j: int| 0 <= j < i ==> s@[j] == p@[j],
        decreases p_len - i,
    {
        if s.get_char(i) != p.get_char(i) {
            assert(s@.subrange(0, p@.len() as int)[i as int] != p@[i as int]);
            return false;
        }
        i += 1;
    }
    proof {
        assert(s@.subrange(0, p@.len() as int) =~= p@);
    }
    true
}

/// The characters of `s` from `from` (inclusive) to `to` (exclusive), owned.
pub fn substring(s: &str, from: usize, to: usize) -> (r: String)
    requires
        from <= to <= s@.len(),
    ensures
        r@ == s@.subrange(from as int, to as int),
{
    s.substring_char(from, to).to_owned()
}

/// `a` followed by `b`, owned.
pub fn concat_str(a: &str, b: &str) -> (r: String)
    ensures
        r@ == a@ + b@,
{
    let mut r = a.to_owned();
    r.append(b);
    r
}

/// `p` occurs in `s` at offset `i`.
pub open spec fn spec_match_at(s: Seq<char>, p: Seq<char>, i: int) -> bool {
    0 <= i && i + p.len() <= s.len() && s.subrange(i, i + p.len()) == p
}

/// `p` occurs somewhere in `s`.
pub open spec fn spec_contains(s: Seq<char>, p: Seq<char>) -> bool {
    exists|i: int| spec_match_at(s, p, i)
}

/// `s` from `i` on, scanned left to right with every occurrence of `from`
/// replaced by `to`; matches do not overlap a replacement.
pub open spec fn spec_replace_from(s: Seq<char>, from: Seq<char>, to: Seq<char>, i: int) -> Seq<
    char,
>
    recommends
        from.len() > 0,
        0 <= i <= s.len(),
    decreases s.len() - i,
    when 0 <= i <= s.len() && from.len() > 0
{
    if i == s.len() {
        Seq::empty()
    } else if spec_match_at(s, from, i) {
        to + spec_replace_from(s, from, to, i + from.len())
    } else {
        seq![s[i]] + spec_replace_from(s, from, to, i + 1)
    }
}

/// `s` with every occurrence of `from` replaced by `to`.
pub open spec fn spec_replace(s: Seq<char>, from: Seq<char>, to: Seq<char>) -> Seq<char> {
    spec_replace_from(s, from, to, 0)
}

/// Does `p` occur in `s` at offset `i`?
fn match_at(s: &str, p: &str, i: usize) -> (r: bool)
    requires
        i + p@.len() <= s@.len(),
    ensures
        r == spec_match_at(s@, p@, i as int),
{
    let s_len = s.unicode_len();
    let p_len = p.unicode_len();
    let mut j: usize = 0;
    while j < p_len
        invariant
            j <= p_len,
            s_len == s@.len(),
            p_len == p@.len(),
            i + p_len <= s_len,
            forall|l: int| 0 <= l < j ==> s@[i + l] == p@[l],
        decreases p_len - j,
    {
        if s.get_char(i + j) != p.get_char(j) {
            assert(s@.subrange(i as int, i + p@.len())[j as int] != p@[j as int]);
            return false;
        }
        j += 1;
    }
    proof {
        assert(s@.subrange(i as int, i + p@.len()) =~= p@);
    }
    true
}

/// Does `p` occur anywhere in `s`?
pub fn str_contains(s: &str, p: &str) -> (r: bool)
    ensures
        r == spec_contains(s@, p@),
{
    let s_len = s.unicode_len();
    let p_len = p.unicode_len();
    if p_len > s_len {
        assert(forall|l: int| !spec_match_at(s@, p@, l));
        return false;
    }
    if p_len == 0 {
        assert(spec_match_at(s@, p@, 0)) by {
            assert(s@.subrange(0, 0) =~= p@);
        }
        return true;
    }
    let mut i: usize = 0;
    while i <= s_len - p_len
        invariant
            s_len == s@.len(),
            p_len == p@.len(),
            0 < p_len <= s_len,
            i <= s_len - p_len + 1,
            forall|l: int| 0 <= l < i ==> !spec_match_at(s@, p@, l),
        decreases s_len - i,
    {
        if match_at(s, p, i) {
            return true;
        }
        i += 1;
    }
    assert forall|l: int| !spec_match_at(s@, p@, l) by {
        if 0 <= l < i {
        } else if l >= i {
            assert(l + p@.len() > s@.len());
        }
    }
    false
}

/// `s` with every occurrence of `from` replaced by `to`, scanning left to
/// right without overlapping a replacement.
pub fn replace_all(s: &str, from: &str, to: &str) -> (r: String)
    requires
        from@.len() > 0,
    ensures
        r@ == spec_replace(s@, from@, to@),
{
    let s_len = s.unicode_len();
    let from_len = from.unicode_len();
    let mut out = String::new();
    let mut i: usize = 0;
    while i < s_len
        invariant
            i <= s_len,
            s_len == s@.len(),
            from_len == from@.len(),
            from_len > 0,
            out@ + spec_replace_from(s@, from@, to@, i as int) == spec_replace(s@, from@, to@),
        decreases s_len - i,
    {
        let matched = if from_len <= s_len - i {
            match_at(s, from, i)
        } else {
            false
        };
        if matched {
            out.append(to);
            i += from_len;
        } else {
            out.append(s.substring_char(i, i + 1));
            proof {
                assert(s@.subrange(i as int, i + 1) =~= seq![s@[i as int]]);
            }
            i += 1;
        }
    }
    proof {
        assert(out@ =~= spec_replace(s@, from@, to@));
    }
    out
}

/// The characters after the last `sep` of `s`; all of `s` when it has none.
pub open spec fn spec_after_last(s: Seq<char>, sep: char) -> Seq<char>
    decreases s.len(),
{
    if s.len() == 0 {
        Seq::empty()
    } else if s.last() == sep {
        Seq::empty()
    } else {
        spec_after_last(s.drop_last(), sep).push(s.last())
    }
}

proof fn lemma_after_last_is_suffix(s: Seq<char>, sep: char, k: int)
    requires
        0 <= k <= s.len(),
        forall|j: int| k <= j < s.len() ==> s[j] != sep,
        k > 0 ==> s[k - 1] == sep,
    ensures
        spec_after_last(s, sep) == s.subrange(k, s.len() as int),
    decreases s.len(),
{
    if s.len() == 0 {
        assert(spec_after_last(s, sep) =~= s.subrange(k, s.len() as int));
    } else if s.last() == sep {
        assert(k == s.len());
        assert(spec_after_last(s, sep) =~= s.subrange(k, s.len() as int));
    } else {
        assert(k < s.len());
        let t = s.drop_last();
        lemma_after_last_is_suffix(t, sep, k);
        assert(t.subrange(k, t.len() as int) =~= s.subrange(k, s.len() as int - 1));
        assert(spec_after_last(s, sep) =~= s.subrange(k, s.len() as int));
    }
}

/// The characters of `s` after its last `sep`.
pub fn suffix_after_last(s: &str, sep: char) -> (r: String)
    ensures
        r@ == spec_after_last(s@, sep),
{
    let len = s.unicode_len();
    let mut start: usize = len;
    while start > 0
        invariant
            start <= len,
            len == s@.len(),
            forall|j: int| start <= j < len ==> s@[j] != sep,
        ensures
            start <= len,
            forall|j: int| start <= j < len ==> s@[j] != sep,
            start > 0 ==> s@[start - 1] == sep,
        decreases start,
    {
        if s.get_char(start - 1) == sep {
            break;
        }
        start -= 1;
    }
    proof {
        lemma_after_last_is_suffix(s@, sep, start as int);
    }
    substring(s, start, len)
}

/// ASCII whitespace, as both ends of console input carry it.
pub open spec fn spec_is_space(c: char) -> bool {
    c == ' ' || c == '\t' || c == '\n' || c == '\r'
}

/// `s` without its leading whitespace.
pub open spec fn spec_trim_front(s: Seq<char>) -> Seq<char>
    decreases s.len(),
{
    if s.len() > 0 && spec_is_space(s[0]) {
        spec_trim_front(s.skip(1))
    } else {
        s
    }
}

/// `s` without its trailing whitespace.
pub open spec fn spec_trim_back(s: Seq<char>) -> Seq<char>
    decreases s.len(),
{
    if s.len() > 0 && spec_is_space(s.last()) {
        spec_trim_back(s.drop_last())
    } else {
        s
    }
}

/// `s` without leading and trailing ASCII whitespace.
pub open spec fn spec_trimmed(s: Seq<char>) -> Seq<char> {
    spec_trim_back(spec_trim_front(s))
}

proof fn lemma_trim_front_suffix(s: Seq<char>, i: int)
    requires
        0 <= i <= s.len(),
        forall|j: int| 0 <= j < i ==> spec_is_space(s[j]),
        i < s.len() ==> !spec_is_space(s[i]),
    ensures
        spec_trim_front(s) == s.skip(i),
    decreases i,
{
    if i == 0 {
        assert(s.skip(0) =~= s);
    } else {
        let t = s.skip(1);
        lemma_trim_front_suffix(t, i - 1);
        assert(t.skip(i - 1) =~= s.skip(i));
    }
}

proof fn lemma_trim_back_prefix(s: Seq<char>, j: int)
    requires
        0 <= j <= s.len(),
        forall|l: int| j <= l < s.len() ==> spec_is_space(s[l]),
        j > 0 ==> !spec_is_space(s[j - 1]),
    ensures
        spec_trim_back(s) == s.take(j),
    decreases s.len() - j,
{
    if j == s.len() {
        assert(s.take(j) =~= s);
    } else {
        let t = s.drop_last();
        lemma_trim_back_prefix(t, j);
        assert(t.take(j) =~= s.take(j));
    }
}

/// `s` with ASCII whitespace removed from both ends.
pub fn trim_ascii(s: &str) -> (r: String)
    ensures
        r@ == spec_trimmed(s@),
{
    let len = s.unicode_len();
    let mut i: usize = 0;
    while i < len
        invariant
            i <= len,
            len == s@.len(),
            forall|j: int| 0 <= j < i ==> spec_is_space(s@[j]),
        ensures
            i <= len,
            forall|j: int| 0 <= j < i ==> spec_is_space(s@[j]),
            i < len ==> !spec_is_space(s@[i as int]),
        decreases len - i,
    {
        let c = s.get_char(i);
        if !(c == ' ' || c == '\t' || c == '\n' || c == '\r') {
            break;
        }
        i += 1;
    }
    let ghost front = s@.skip(i as int);
    proof {
        lemma_trim_front_suffix(s@, i as int);
    }
    let mut j: usize = len;
    while j > i
        invariant
            i <= j <= len,
            len == s@.len(),
            front == s@.skip(i as int),
            forall|l: int| j <= l < len ==> spec_is_space(s@[l]),
        ensures
            i <= j <= len,
            forall|l: int| j <= l < len ==> spec_is_space(s@[l]),
            j > i ==> !spec_is_space(s@[j - 1]),
        decreases j,
    {
        let c = s.get_char(j - 1);
        if !(c == ' ' || c == '\t' || c == '\n' || c == '\r') {
            break;
        }
        j -= 1;
    }
    proof {
        if j == i {
            lemma_trim_back_prefix(front, 0);
        } else {
            lemma_trim_back_prefix(front, j - i);
        }
        assert(front.take(j - i) =~= s@.subrange(i as int, j as int));
    }
    substring(s, i, j)
}

/// A decimal digit.
pub open spec fn spec_is_digit(c: char) -> bool {
    '0' as int <= c as int <= '9' as int
}

/// The value of the digit `c`.
pub open spec fn spec_digit_val(c: char) -> int {
    c as int - '0' as int
}

/// Every character of `s` is a digit, and there is at least one.
pub open spec fn spec_all_digits(s: Seq<char>) -> bool {
    s.len() > 0 && forall|i: int| 0 <= i < s.len() ==> spec_is_digit(#[trigger] s[i])
}

/// The number the digit string `s` denotes.
pub open spec fn spec_decimal_value(s: Seq<char>) -> int
    decreases s.len(),
{
    if s.len() == 0 {
        0
    } else {
        spec_decimal_value(s.drop_last()) * 10 + spec_digit_val(s.last())
    }
}

proof fn lemma_decimal_value_nonneg(s: Seq<char>)
    requires
        forall|i: int| 0 <= i < s.len() ==> spec_is_digit(#[trigger] s[i]),
    ensures
        spec_decimal_value(s) >= 0,
    decreases s.len(),
{
    if s.len() > 0 {
        lemma_decimal_value_nonneg(s.drop_last());
    }
}

/// The digit string after an optional leading `+` sign.
pub open spec fn spec_after_sign(s: Seq<char>) -> Seq<char> {
    if s.len() > 0 && s[0] == '+' {
        s.skip(1)
    } else {
        s
    }
}

/// Parse an unsigned decimal number the way the standard parser reads a
/// `u32`: an optional `+`, then one or more digits, in range.
pub fn parse_u32(s: &str) -> (r: Option<u32>)
    ensures
        match r {
            Some(v) => spec_all_digits(spec_after_sign(s@)) && v == spec_decimal_value(
                spec_after_sign(s@),
            ),
            None => !(spec_all_digits(spec_after_sign(s@)) && spec_decimal_value(
                spec_after_sign(s@),
            ) <= u32::MAX),
        },
{
    let len = s.unicode_len();
    let start: usize = if len > 0 && s.get_char(0) == '+' {
        1
    } else {
        0
    };
    let ghost digits = spec_after_sign(s@);
    proof {
        assert(digits =~= s@.skip(start as int));
    }
    if start == len {
        return None;
    }
    let mut acc: u64 = 0;
    let mut overflowed = false;
    let mut i: usize = start;
    while i < len
        invariant
            start <= i <= len,
            len == s@.len(),
            digits == s@.skip(start as int),
            digits == spec_after_sign(s@),
            forall|j: int| start <= j < i ==> spec_is_digit(#[trigger] s@[j]),
            !overflowed ==> acc == spec_decimal_value(digits.take(i - start)) && acc <= u32::MAX,
            overflowed ==> spec_decimal_value(digits.take(i - start)) > u32::MAX,
        decreases len - i,
    {
        let c = s.get_char(i);
        let d: u64 = match c {
            '0' => 0,
            '1' => 1,
            '2' => 2,
            '3' => 3,
            '4' => 4,
            '5' => 5,
            '6' => 6,
            '7' => 7,
            '8' => 8,
            '9' => 9,
            _ => {
                proof {
                    assert(digits[i - start] == s@[i as int]);
                    assert(!spec_is_digit(s@[i as int]));
                    assert(!spec_all_digits(digits));
                }
                return None;
            },
        };
        assert(spec_is_digit(s@[i as int]) && d == spec_digit_val(s@[i as int]));
        let ghost prefix = digits.take(i - start);
        let ghost next = digits.take(i + 1 - start);
        proof {
            assert(next.drop_last() =~= prefix);
            assert(next.last() == s@[i as int]);
        }
        if overflowed {
            proof {
                lemma_decimal_value_nonneg(next);
                assert(spec_decimal_value(next) == spec_decimal_value(prefix) * 10
                    + spec_digit_val(next.last()));
            }
        } else {
            let bumped = acc * 10 + d;
            if bumped > u32::MAX as u64 {
                overflowed = true;
            } else {
                acc = bumped;
            }
        }
        i += 1;
    }
    proof {
        assert(digits.take(len - start) =~= digits);
    }
    if overflowed {
        None
    } else {
        Some(acc as u32)
    }
}

/// The ASCII-lowercased form of `c`.
pub open spec fn spec_lower_char(c: char) -> char {
    if 'A' as int <= c as int <= 'Z' as int {
        (c as int + 32) as char
    } else {
        c
    }
}

/// `s` with every ASCII letter lowercased.
pub open spec fn spec_lower(s: Seq<char>) -> Seq<char> {
    s.map_values(|c: char| spec_lower_char(c))
}

/// Append the lowercased character at `s[i]` to `out`.
fn append_lower_char(out: &mut String, s: &str, i: usize)
    requires
        i < s@.len(),
    ensures
        final(out)@ == old(out)@ + seq![spec_lower_char(s@[i as int])],
{
    let s_len = s.unicode_len();
    let c = s.get_char(i);
    match c {
        'A' => {
            proof {
                reveal_strlit("a");
                assert("a"@ =~= seq![spec_lower_char('A')]);
            }
            out.append("a");
        },
        'B' => {
            proof {
                reveal_strlit("b");
                assert("b"@ =~= seq![spec_lower_char('B')]);
            }
            out.append("b");
        },
        'C' => {
            proof {
                reveal_strlit("c");
                assert("c"@ =~= seq![spec_lower_char('C')]);
            }
            out.append("c");
        },
        'D' => {
            proof {
                reveal_strlit("d");
                assert("d"@ =~= seq![spec_lower_char('D')]);
            }
            out.append("d");
        },
        'E' => {
            proof {
                reveal_strlit("e");
                assert("e"@ =~= seq![spec_lower_char('E')]);
            }
            out.append("e");
        },
        'F' => {
            proof {
                reveal_strlit("f");
                assert("f"@ =~= seq![spec_lower_char('F')]);
            }
            out.append("f");
        },
        'G' => {
            proof {
                reveal_strlit("g");
                assert("g"@ =~= seq![spec_lower_char('G')]);
            }
            out.append("g");
        },
        'H' => {
            proof {
                reveal_strlit("h");
                assert("h"@ =~= seq![spec_lower_char('H')]);
            }
            out.append("h");
        },
        'I' => {
            proof {
                reveal_strlit("i");
                assert("i"@ =~= seq![spec_lower_char('I')]);
            }
            out.append("i");
        },
        'J' => {
            proof {
                reveal_strlit("j");
                assert("j"@ =~= seq![spec_lower_char('J')]);
            }
            out.append("j");
        },
        'K' => {
            proof {
                reveal_strlit("k");
                assert("k"@ =~= seq![spec_lower_char('K')]);
            }
            out.append("k");
        },
        'L' => {
            proof {
                reveal_strlit("l");
                assert("l"@ =~= seq![spec_lower_char('L')]);
            }
            out.append("l");
        },
        'M' => {
            proof {
                reveal_strlit("m");
                assert("m"@ =~= seq![spec_lower_char('M')]);
            }
            out.append("m");
        },
        'N' => {
            proof {
                reveal_strlit("n");
                assert("n"@ =~= seq![spec_lower_char('N')]);
            }
            out.append("n");
        },
        'O' => {
            proof {
                reveal_strlit("o");
                assert("o"@ =~= seq![spec_lower_char('O')]);
            }
            out.append("o");
        },
        'P' => {
            proof {
                reveal_strlit("p");
                assert("p"@ =~= seq![spec_lower_char('P')]);
            }
            out.append("p");
        },
        'Q' => {
            proof {
                reveal_strlit("q");
                assert("q"@ =~= seq![spec_lower_char('Q')]);
            }
            out.append("q");
        },
        'R' => {
            proof {
                reveal_strlit("r");
                assert("r"@ =~= seq![spec_lower_char('R')]);
            }
            out.append("r");
        },
        'S' => {
            proof {
                reveal_strlit("s");
                assert("s"@ =~= seq![spec_lower_char('S')]);
            }
            out.append("s");
        },
        'T' => {
            proof {
                reveal_strlit("t");
                assert("t"@ =~= seq![spec_lower_char('T')]);
            }
            out.append("t");
        },
        'U' => {
            proof {
                reveal_strlit("u");
                assert("u"@ =~= seq![spec_lower_char('U')]);
            }
            out.append("u");
        },
        'V' => {
            proof {
                reveal_strlit("v");
                assert("v"@ =~= seq![spec_lower_char('V')]);
            }
            out.append("v");
        },
        'W' => {
            proof {
                reveal_strlit("w");
                assert("w"@ =~= seq![spec_lower_char('W')]);
            }
            out.append("w");
        },
        'X' => {
            proof {
                reveal_strlit("x");
                assert("x"@ =~= seq![spec_lower_char('X')]);
            }
            out.append("x");
        },
        'Y' => {
            proof {
                reveal_strlit("y");
                assert("y"@ =~= seq![spec_lower_char('Y')]);
            }
            out.append("y");
        },
        'Z' => {
            proof {
                reveal_strlit("z");
                assert("z"@ =~= seq![spec_lower_char('Z')]);
            }
            out.append("z");
        },
        _ => {
            out.append(s.substring_char(i, i + 1));
            proof {
                assert(s@.subrange(i as int, i + 1) =~= seq![s@[i as int]]);
                assert(spec_lower_char(s@[i as int]) == s@[i as int]);
            }
        },
    }
}

/// `s` with every ASCII letter lowercased.
pub fn to_lowercase_ascii(s: &str) -> (r: String)
    ensures
        r@ == spec_lower(s@),
{
    let len = s.unicode_len();
    let mut out = String::new();
    let mut i: usize = 0;
    while i < len
        invariant
            i <= len,
            len == s@.len(),
            out@ == spec_lower(s@.take(i as int)),
        decreases len - i,
    {
        append_lower_char(&mut out, s, i);
        proof {
            assert(spec_lower(s@.take(i + 1)) =~= spec_lower(s@.take(i as int)).push(
                spec_lower_char(s@[i as int]),
            ));
        }
        i += 1;
    }
    proof {
        assert(s@.take(len as int) =~= s@);
    }
    out
}

} // verus!

//! Verified text primitives shared by every extractor: digit parsing,
//! substring search, line splitting, replacement and trimming, each with an
//! exact mathematical description of its result.
use vstd::prelude::*;

verus! {

use vstd::string::StrSliceExecFns;
use vstd::string::StringExecFns;

/// True for the ten ASCII decimal digit characters.
pub open spec fn is_digit(c: char) -> bool {
    '0' <= c && c <= '9'
}

/// Numeric value of an ASCII decimal digit character.
pub open spec fn digit_val(c: char) -> nat {
    (c as nat - '0' as nat) as nat
}

/// Value of a whole sequence of ASCII decimal digits, most significant first.
pub open spec fn digits_val(s: Seq<char>) -> nat
    decreases s.len(),
{
    if s.len() == 0 {
        0
    } else {
        digits_val(s.drop_last()) * 10 + digit_val(s.last())
    }
}

/// True when every character of the sequence is an ASCII decimal digit.
pub open spec fn all_digits(s: Seq<char>) -> bool {
    forall|i: int| 0 <= i < s.len() ==> is_digit(#[trigger] s[i])
}

/// Ten raised to the given power.
pub open spec fn pow10(n: nat) -> nat
    decreases n,
{
    if n == 0 {
        1
    } else {
        10 * pow10((n - 1) as nat)
    }
}

/// A digit string's value is bounded by ten to the power of its length.
pub proof fn lemma_digits_val_bound(s: Seq<char>)
    requires
        all_digits(s),
    ensures
        digits_val(s) < pow10(s.len()),
    decreases s.len(),
{
    if s.len() > 0 {
        assert(all_digits(s.drop_last())) by {
            assert(forall|j: int| 0 <= j < s.len() - 1 ==> s.drop_last()[j] == s[j]);
        }
        lemma_digits_val_bound(s.drop_last());
        assert(is_digit(s[s.len() - 1]));
        assert(digit_val(s.last()) <= 9);
    }
}

/// The needle occurs in the haystack starting at position `i`.
pub open spec fn contains_at(hay: Seq<char>, i: int, needle: Seq<char>) -> bool {
    0 <= i && i + needle.len() <= hay.len() && hay.subrange(i, i + needle.len() as int) == needle
}

/// The needle occurs somewhere in the haystack.
pub open spec fn contains_seq(hay: Seq<char>, needle: Seq<char>) -> bool {
    exists|i: int| contains_at(hay, i, needle)
}

/// Lower-case image of one character, for the ASCII letters only.
pub open spec fn lower_char(c: char) -> char {
    if 'A' <= c && c <= 'Z' {
        ((c as u8) + 32) as char
    } else {
        c
    }
}

/// Lower-case image of a character sequence, ASCII letters only.
pub open spec fn lower_seq(s: Seq<char>) -> Seq<char> {
    s.map_values(|c: char| lower_char(c))
}

/// Whitespace as the trimming primitive understands it.
pub open spec fn is_space(c: char) -> bool {
    c == ' ' || c == '\t' || c == '\n' || c == '\r'
}

/// The sequence with leading whitespace removed.
pub open spec fn trim_front(s: Seq<char>) -> Seq<char>
    decreases s.len(),
{
    if s.len() > 0 && is_space(s[0]) {
        trim_front(s.skip(1))
    } else {
        s
    }
}

/// The sequence with trailing whitespace removed.
pub open spec fn trim_back(s: Seq<char>) -> Seq<char>
    decreases s.len(),
{
    if s.len() > 0 && is_space(s.last()) {
        trim_back(s.drop_last())
    } else {
        s
    }
}

/// The sequence with leading and trailing whitespace removed.
pub open spec fn trim_seq(s: Seq<char>) -> Seq<char> {
    trim_back(trim_front(s))
}

/// A front-trimmed sequence never starts with whitespace.
pub proof fn lemma_trim_front_nonspace(s: Seq<char>)
    ensures
        trim_front(s).len() > 0 ==> !is_space(trim_front(s)[0]),
    decreases s.len(),
{
    if s.len() > 0 && is_space(s[0]) {
        lemma_trim_front_nonspace(s.skip(1));
    }
}

/// Back-trimming only shortens a sequence and keeps its head.
pub proof fn lemma_trim_back_head(s: Seq<char>)
    ensures
        trim_back(s).len() <= s.len(),
        trim_back(s).len() > 0 ==> trim_back(s)[0] == s[0],
    decreases s.len(),
{
    if s.len() > 0 && is_space(s.last()) {
        lemma_trim_back_head(s.drop_last());
    }
}

/// A trimmed sequence never starts with whitespace.
pub proof fn lemma_trim_head_nonspace(s: Seq<char>)
    ensures
        trim_seq(s).len() > 0 ==> !is_space(trim_seq(s)[0]),
{
    lemma_trim_front_nonspace(s);
    lemma_trim_back_head(trim_front(s));
}

/// Pieces of `s` between occurrences of the separator, in order. The result
/// always has at least one piece; a separator at the very end yields a final
/// empty piece.
pub open spec fn split_char(s: Seq<char>, sep: char) -> Seq<Seq<char>>
    decreases s.len(),
{
    if s.len() == 0 {
        seq![Seq::<char>::empty()]
    } else if s[0] == sep {
        seq![Seq::<char>::empty()] + split_char(s.skip(1), sep)
    } else {
        let rest = split_char(s.skip(1), sep);
        seq![seq![s[0]] + rest[0]] + rest.skip(1)
    }
}

pub proof fn lemma_split_char_len(s: Seq<char>, sep: char)
    ensures
        split_char(s, sep).len() >= 1,
    decreases s.len(),
{
    if s.len() > 0 {
        lemma_split_char_len(s.skip(1), sep);
    }
}

/// Splitting at the first separator: everything before it is one piece, and
/// the rest splits independently.
pub proof fn lemma_split_at_first_sep(s: Seq<char>, i: int, sep: char)
    requires
        0 <= i < s.len(),
        s[i] == sep,
        forall|j: int| 0 <= j < i ==> s[j] != sep,
    ensures
        split_char(s, sep) =~= seq![s.take(i)] + split_char(s.skip(i + 1), sep),
    decreases i,
{
    lemma_split_char_len(s.skip(i + 1), sep);
    if i == 0 {
        assert(s.take(0) =~= Seq::<char>::empty());
        assert(s.skip(1) =~= s.skip(i + 1));
    } else {
        lemma_split_at_first_sep(s.skip(1), i - 1, sep);
        let rest = split_char(s.skip(1), sep);
        assert(s.skip(1).take(i - 1) =~= s.take(i).skip(1));
        assert(s.skip(1).skip(i) =~= s.skip(i + 1));
        assert(rest[0] =~= s.take(i).skip(1));
        assert(seq![s[0]] + rest[0] =~= s.take(i));
    }
}

/// A sequence without the separator splits into exactly itself.
pub proof fn lemma_split_no_sep(s: Seq<char>, sep: char)
    requires
        forall|j: int| 0 <= j < s.len() ==> s[j] != sep,
    ensures
        split_char(s, sep) =~= seq![s],
    decreases s.len(),
{
    if s.len() > 0 {
        lemma_split_no_sep(s.skip(1), sep);
        let rest = split_char(s.skip(1), sep);
        assert(rest == seq![s.skip(1)]);
        assert(seq![s[0]] + rest[0] =~= s);
        assert(rest.skip(1) =~= Seq::<Seq<char>>::empty());
        assert(seq![seq![s[0]] + rest[0]] + rest.skip(1) =~= seq![s]);
    } else {
        assert(s =~= Seq::<char>::empty());
    }
}

/// A line piece with a trailing carriage return removed.
pub open spec fn strip_cr(p: Seq<char>) -> Seq<char> {
    if p.len() > 0 && p.last() == '\r' {
        p.drop_last()
    } else {
        p
    }
}

/// The lines of a body: pieces between newline characters, without a final
/// empty piece when the body ends in a newline, each with a trailing carriage
/// return removed.
pub open spec fn lines_of(s: Seq<char>) -> Seq<Seq<char>> {
    let parts = if s.len() > 0 && s.last() == '\n' {
        split_char(s, '\n').drop_last()
    } else {
        split_char(s, '\n')
    };
    parts.map_values(|p: Seq<char>| strip_cr(p))
}

/// Every occurrence of a non-empty pattern replaced, scanning left to right
/// without overlap.
pub open spec fn replace_seq(s: Seq<char>, pat: Seq<char>, rep: Seq<char>) -> Seq<char>
    decreases s.len(),
    when pat.len() > 0
{
    if s.len() < pat.len() {
        s
    } else if s.take(pat.len() as int) == pat {
        rep + replace_seq(s.skip(pat.len() as int), pat, rep)
    } else {
        seq![s[0]] + replace_seq(s.skip(1), pat, rep)
    }
}

/// Position of the first occurrence of a character, if any.
pub open spec fn find_first(s: Seq<char>, c: char) -> Option<int>
    decreases s.len(),
{
    if s.len() == 0 {
        None
    } else if s[0] == c {
        Some(0)
    } else {
        match find_first(s.skip(1), c) {
            Some(i) => Some(i + 1),
            None => None,
        }
    }
}

/// What a found first occurrence means: it is in range, it is the
/// character, and nothing before it is.
pub proof fn lemma_find_first_props(s: Seq<char>, c: char)
    ensures
        match find_first(s, c) {
            Some(i) => 0 <= i < s.len() && s[i] == c && forall|j: int| 0 <= j < i ==> s[j] != c,
            None => forall|j: int| 0 <= j < s.len() ==> s[j] != c,
        },
    decreases s.len(),
{
    if s.len() > 0 && s[0] != c {
        lemma_find_first_props(s.skip(1), c);
        assert(forall|j: int| 0 <= j < s.len() - 1 ==> s.skip(1)[j] == s[j + 1]);
        match find_first(s.skip(1), c) {
            Some(i) => {
                assert(s[i + 1] == s.skip(1)[i]);
                assert forall|j: int| 0 <= j < i + 1 implies s[j] != c by {
                    if j > 0 {
                        assert(s[j] == s.skip(1)[j - 1]);
                    }
                }
            },
            None => {
                assert forall|j: int| 0 <= j < s.len() implies s[j] != c by {
                    if j > 0 {
                        assert(s[j] == s.skip(1)[j - 1]);
                    }
                }
            },
        }
    }
}

/// The first occurrence, seen from any scan position with no match before it.
pub proof fn lemma_find_first_skip(s: Seq<char>, c: char, k: int)
    requires
        0 <= k <= s.len(),
        forall|j: int| 0 <= j < k ==> s[j] != c,
    ensures
        find_first(s, c) == match find_first(s.skip(k), c) {
            Some(i) => Some(i + k),
            None => None::<int>,
        },
    decreases k,
{
    if k > 0 {
        lemma_find_first_skip(s.skip(1), c, k - 1);
        assert(s.skip(1).skip(k - 1) =~= s.skip(k));
    } else {
        assert(s.skip(0) =~= s);
    }
}

/// Number of characters in the string; the byte length of an arbitrary
/// string says nothing about it.
pub fn char_len(s: &str) -> (n: usize)
    ensures
        n == s@.len(),
{
    s.unicode_len()
}

/// Character-for-character string equality.
pub fn eq_str(a: &str, b: &str) -> (r: bool)
    ensures
        r == (a@ == b@),
{
    let na = a.unicode_len();
    let nb = b.unicode_len();
    if na != nb {
        return false;
    }
    let mut i: usize = 0;
    while i < na
        invariant
            0 <= i <= na,
            na == a@.len(),
            na == b@.len(),
            forall|j: int| 0 <= j < i ==> a@[j] == b@[j],
        decreases na - i,
    {
        if a.get_char(i) != b.get_char(i) {
            return false;
        }
        i += 1;
    }
    proof {
        assert(a@ =~= b@);
    }
    true
}

/// Whether the needle occurs in the haystack, by scanning every position.
pub fn contains_sub(hay: &str, needle: &str) -> (r: bool)
    ensures
        r == contains_seq(hay@, needle@),
{
    let nh = hay.unicode_len();
    let nn = needle.unicode_len();
    if nn > nh {
        assert(forall|i: int| !contains_at(hay@, i, needle@));
        return false;
    }
    if nn == 0 {
        proof {
            assert(hay@.subrange(0, 0) =~= needle@);
            assert(contains_at(hay@, 0, needle@));
        }
        return true;
    }
    let mut i: usize = 0;
    while i <= nh - nn
        invariant
            0 <= i,
            1 <= nn <= nh,
            nh == hay@.len(),
            nn == needle@.len(),
            i <= nh - nn + 1,
            forall|k: int| 0 <= k < i ==> !contains_at(hay@, k, needle@),
        decreases nh - i,
    {
        let mut j: usize = 0;
        let mut hit = true;
        while j < nn
            invariant
                0 <= j <= nn,
                i + nn <= nh,
                nh == hay@.len(),
                nn == needle@.len(),
                hit ==> forall|m: int| 0 <= m < j ==> hay@[i + m] == needle@[m],
                !hit ==> !contains_at(hay@, i as int, needle@),
            decreases nn - j,
        {
            if hay.get_char(i + j) != needle.get_char(j) {
                proof {
                    if contains_at(hay@, i as int, needle@) {
                        assert(hay@.subrange(i as int, i + nn as int)[j as int] == needle@[j as int]);
                    }
                }
                hit = false;
                j = nn;
            } else {
                j += 1;
            }
        }
        if hit {
            proof {
                assert(hay@.subrange(i as int, i + nn as int) =~= needle@);
                assert(contains_at(hay@, i as int, needle@));
            }
            return true;
        }
        i += 1;
    }
    proof {
        assert forall|k: int| !contains_at(hay@, k, needle@) by {
            if 0 <= k && k + needle@.len() <= hay@.len() {
                assert(k < i);
            }
        }
    }
    false
}

/// Lower-case image of one character, computed.
fn lower_char_exec(c: char) -> (r: char)
    ensures
        r == lower_char(c),
{
    if 'A' <= c && c <= 'Z' {
        (((c as u8) + 32) as char)
    } else {
        c
    }
}

/// Whether the needle occurs in the haystack when both are lowered to
/// ASCII lower case.
pub fn contains_lower(hay: &str, needle: &str) -> (r: bool)
    ensures
        r == contains_seq(lower_seq(hay@), lower_seq(needle@)),
{
    let nh = hay.unicode_len();
    let nn = needle.unicode_len();
    let ghost lh = lower_seq(hay@);
    let ghost ln = lower_seq(needle@);
    assert(lh.len() == nh && ln.len() == nn);
    if nn > nh {
        assert(forall|i: int| !contains_at(lh, i, ln));
        return false;
    }
    if nn == 0 {
        proof {
            assert(lh.subrange(0, 0) =~= ln);
            assert(contains_at(lh, 0, ln));
        }
        return true;
    }
    let mut i: usize = 0;
    while i <= nh - nn
        invariant
            0 <= i,
            1 <= nn <= nh,
            nh == lh.len(),
            nn == ln.len(),
            nh == hay@.len(),
            nn == needle@.len(),
            lh == lower_seq(hay@),
            ln == lower_seq(needle@),
            i <= nh - nn + 1,
            forall|k: int| 0 <= k < i ==> !contains_at(lh, k, ln),
        decreases nh - i,
    {
        let mut j: usize = 0;
        let mut hit = true;
        while j < nn
            invariant
                0 <= j <= nn,
                i + nn <= nh,
                nh == lh.len(),
                nn == ln.len(),
                nh == hay@.len(),
                nn == needle@.len(),
                lh == lower_seq(hay@),
                ln == lower_seq(needle@),
                hit ==> forall|m: int| 0 <= m < j ==> lh[i + m] == ln[m],
                !hit ==> !contains_at(lh, i as int, ln),
            decreases nn - j,
        {
            if lower_char_exec(hay.get_char(i + j)) != lower_char_exec(needle.get_char(j)) {
                proof {
                    if contains_at(lh, i as int, ln) {
                        assert(lh.subrange(i as int, i + nn as int)[j as int] == ln[j as int]);
                    }
                }
                hit = false;
                j = nn;
            } else {
                j += 1;
            }
        }
        if hit {
            proof {
                assert(lh.subrange(i as int, i + nn as int) =~= ln);
                assert(contains_at(lh, i as int, ln));
            }
            return true;
        }
        i += 1;
    }
    proof {
        assert forall|k: int| !contains_at(lh, k, ln) by {
            if 0 <= k && k + ln.len() <= lh.len() {
                assert(k < i);
            }
        }
    }
    false
}

/// Position of the first occurrence of a character, if any.
pub fn find_char(s: &str, c: char) -> (r: Option<usize>)
    ensures
        match r {
            Some(i) => find_first(s@, c) == Some(i as int),
            None => find_first(s@, c) is None,
        },
{
    let n = s.unicode_len();
    let mut i: usize = 0;
    while i < n
        invariant
            0 <= i <= n,
            n == s@.len(),
            forall|j: int| 0 <= j < i ==> s@[j] != c,
        decreases n - i,
    {
        if s.get_char(i) == c {
            proof {
                lemma_find_first_skip(s@, c, i as int);
                assert(s@.skip(i as int)[0] == c);
            }
            return Some(i);
        }
        i += 1;
    }
    proof {
        lemma_find_first_skip(s@, c, n as int);
        assert(s@.skip(n as int).len() == 0);
    }
    None
}

/// Value of a string of decimal digits: defined exactly for one to nine
/// digits, which always fit a `u32`.
pub fn parse_u32_digits(s: &str) -> (r: Option<u32>)
    ensures
        match r {
            Some(v) => 1 <= s@.len() <= 9 && all_digits(s@) && v == digits_val(s@),
            None => !(1 <= s@.len() <= 9 && all_digits(s@)),
        },
{
    let n = s.unicode_len();
    if n < 1 || n > 9 {
        return None;
    }
    let mut i: usize = 0;
    let mut acc: u32 = 0;
    while i < n
        invariant
            0 <= i <= n,
            1 <= n <= 9,
            n == s@.len(),
            all_digits(s@.take(i as int)),
            acc == digits_val(s@.take(i as int)),
            acc < pow10(i as nat),
        decreases n - i,
    {
        let c = s.get_char(i);
        if c < '0' || c > '9' {
            assert(!is_digit(s@[i as int]));
            return None;
        }
        let d: u32 = (c as u32) - 48;
        proof {
            assert(pow10(i as nat) <= pow10(8)) by {
                lemma_pow10_mono(i as nat, 8);
            }
            assert(pow10(8) == 100000000) by {
                reveal_with_fuel(pow10, 9);
            }
            assert(s@.take(i + 1).drop_last() =~= s@.take(i as int));
            assert(s@.take(i + 1).last() == s@[i as int]);
            assert(is_digit(s@[i as int]));
            assert(digit_val(s@[i as int]) == d);
            assert forall|j: int| 0 <= j < i + 1 implies is_digit(#[trigger] s@.take(i + 1)[j]) by {
                if j < i {
                    assert(s@.take(i + 1)[j] == s@.take(i as int)[j]);
                } else {
                    assert(s@.take(i + 1)[j] == s@[i as int]);
                }
            }
            assert(pow10((i + 1) as nat) == 10 * pow10(i as nat));
        }
        acc = acc * 10 + d;
        i += 1;
    }
    proof {
        assert(s@.take(n as int) =~= s@);
    }
    Some(acc)
}

/// Ten to a smaller power never exceeds ten to a larger one.
pub proof fn lemma_pow10_mono(a: nat, b: nat)
    requires
        a <= b,
    ensures
        pow10(a) <= pow10(b),
    decreases b,
{
    if a < b {
        lemma_pow10_mono(a, (b - 1) as nat);
        assert(pow10(b) == 10 * pow10((b - 1) as nat));
        assert(pow10((b - 1) as nat) >= 1) by {
            lemma_pow10_pos((b - 1) as nat);
        }
    }
}

/// Ten to any power is positive.
pub proof fn lemma_pow10_pos(n: nat)
    ensures
        pow10(n) >= 1,
    decreases n,
{
    if n > 0 {
        lemma_pow10_pos((n - 1) as nat);
    }
}

/// The pieces of the string between occurrences of the separator.
pub fn split_char_str(s: &str, sep: char) -> (r: Vec<String>)
    ensures
        r.deep_view() == split_char(s@, sep),
        r.len() >= 1,
    decreases s@.len(),
{
    let n = s.unicode_len();
    let mut i: usize = 0;
    while i < n
        invariant
            0 <= i <= n,
            n == s@.len(),
            forall|j: int| 0 <= j < i ==> s@[j] != sep,
        decreases n - i,
    {
        if s.get_char(i) == sep {
            let head = s.substring_char(0, i);
            let tail = s.substring_char(i + 1, n);
            let mut rest = split_char_str(tail, sep);
            proof {
                lemma_split_at_first_sep(s@, i as int, sep);
            }
            rest.insert(0, String::from_str(head));
            proof {
                assert(rest.deep_view() =~= split_char(s@, sep));
            }
            return rest;
        }
        i += 1;
    }
    proof {
        lemma_split_no_sep(s@, sep);
    }
    let mut one: Vec<String> = Vec::new();
    one.push(String::from_str(s));
    proof {
        assert(one.deep_view() =~= split_char(s@, sep));
    }
    one
}

/// The lines of a body, as `lines_of` describes them.
pub fn split_lines(s: &str) -> (r: Vec<String>)
    ensures
        r.deep_view() == lines_of(s@),
{
    let n = s.unicode_len();
    let mut parts = split_char_str(s, '\n');
    if n > 0 && s.get_char(n - 1) == '\n' {
        proof {
            lemma_split_char_len(s@, '\n');
        }
        parts.pop();
    }
    let mut out: Vec<String> = Vec::new();
    let mut k: usize = 0;
    let ghost target = if s@.len() > 0 && s@.last() == '\n' {
        split_char(s@, '\n').drop_last()
    } else {
        split_char(s@, '\n')
    };
    assert(parts.deep_view() =~= target);
    while k < parts.len()
        invariant
            0 <= k <= parts.len(),
            parts.deep_view() == target,
            out.len() == k,
            forall|j: int| 0 <= j < k ==> out.deep_view()[j] == strip_cr(target[j]),
        decreases parts.len() - k,
    {
        let p = &parts[k];
        let pn = p.as_str().unicode_len();
        assert(p@ == target[k as int]);
        let ghost prev = out.deep_view();
        if pn > 0 && p.as_str().get_char(pn - 1) == '\r' {
            let stripped = p.as_str().substring_char(0, pn - 1);
            assert(stripped@ =~= target[k as int].drop_last());
            out.push(String::from_str(stripped));
        } else {
            out.push(p.clone());
        }
        proof {
            assert(out.deep_view() =~= prev.push(strip_cr(target[k as int])));
            assert(forall|j: int| 0 <= j < k ==> out.deep_view()[j] == prev[j]);
        }
        k += 1;
    }
    proof {
        assert(out.deep_view() =~= lines_of(s@));
    }
    out
}

/// Every occurrence of a non-empty pattern replaced, scanning left to right.
pub fn replace_str(s: &str, pat: &str, rep: &str) -> (r: String)
    requires
        pat@.len() > 0,
    ensures
        r@ == replace_seq(s@, pat@, rep@),
{
    let n = s.unicode_len();
    let p = pat.unicode_len();
    let mut out = String::new();
    proof {
        assert(s@.skip(0) =~= s@);
        assert(out@ + replace_seq(s@, pat@, rep@) =~= replace_seq(s@, pat@, rep@));
    }
    let mut i: usize = 0;
    while i < n
        invariant
            0 <= i <= n,
            n == s@.len(),
            p == pat@.len(),
            p > 0,
            replace_seq(s@, pat@, rep@) == out@ + replace_seq(s@.skip(i as int), pat@, rep@),
        decreases n - i,
    {
        let ghost t = s@.skip(i as int);
        if p <= n - i && eq_str(s.substring_char(i, i + p), pat) {
            proof {
                assert(t.take(p as int) =~= s@.subrange(i as int, i + p as int));
                assert(t.skip(p as int) =~= s@.skip(i + p as int));
                assert(replace_seq(t, pat@, rep@) == rep@ + replace_seq(t.skip(p as int), pat@, rep@));
            }
            out.append(rep);
            i += p;
            proof {
                assert(replace_seq(s@, pat@, rep@) =~= out@ + replace_seq(s@.skip(i as int), pat@, rep@));
            }
        } else {
            proof {
                assert(t[0] == s@[i as int]);
                assert(t.skip(1) =~= s@.skip(i + 1));
                if t.len() < pat@.len() {
                    assert(replace_seq(t.skip(1), pat@, rep@) == t.skip(1));
                    assert(replace_seq(t, pat@, rep@) =~= seq![t[0]] + replace_seq(t.skip(1), pat@, rep@));
                } else {
                    assert(t.take(p as int) =~= s@.subrange(i as int, i + p as int));
                    assert(t.take(p as int) != pat@);
                }
                assert(s@.subrange(i as int, i + 1) =~= seq![s@[i as int]]);
            }
            out.append(s.substring_char(i, i + 1));
            i += 1;
            proof {
                assert(replace_seq(s@, pat@, rep@) =~= out@ + replace_seq(s@.skip(i as int), pat@, rep@));
            }
        }
    }
    proof {
        assert(s@.skip(n as int).len() == 0);
        assert(replace_seq(s@.skip(n as int), pat@, rep@) =~= Seq::<char>::empty());
        assert(out@ =~= replace_seq(s@, pat@, rep@));
    }
    out
}

/// The string with leading and trailing whitespace removed.
pub fn trim_str(s: &str) -> (r: String)
    ensures
        r@ == trim_seq(s@),
{
    let n = s.unicode_len();
    proof {
        assert(s@.skip(0) =~= s@);
    }
    let mut a: usize = 0;
    while a < n && is_space_exec(s.get_char(a))
        invariant
            0 <= a <= n,
            n == s@.len(),
            trim_front(s@) == trim_front(s@.skip(a as int)),
        decreases n - a,
    {
        proof {
            let t = s@.skip(a as int);
            assert(t[0] == s@[a as int]);
            assert(t.skip(1) =~= s@.skip(a + 1));
        }
        a += 1;
    }
    let ghost f = trim_front(s@);
    proof {
        let t = s@.skip(a as int);
        if a < n {
            assert(!is_space(t[0]));
        }
        assert(trim_front(t) == t);
        assert(f =~= s@.skip(a as int));
    }
    // now trim the back of s[a..]
    let mut b: usize = n - a;
    proof {
        assert(f.take(b as int) =~= f);
    }
    while b > 0 && is_space_exec(s.get_char(a + b - 1))
        invariant
            0 <= b <= n - a,
            a <= n,
            n == s@.len(),
            f == s@.skip(a as int),
            trim_back(f) == trim_back(f.take(b as int)),
        decreases b,
    {
        proof {
            let t = f.take(b as int);
            assert(t.last() == s@[a + b - 1]);
            assert(t.drop_last() =~= f.take(b - 1));
        }
        b -= 1;
    }
    proof {
        let t = f.take(b as int);
        if b > 0 {
            assert(t.last() == f[b - 1]);
            assert(f[b - 1] == s@[a + b - 1]);
            assert(!is_space(t.last()));
        }
        assert(trim_back(t) == t);
        assert(trim_seq(s@) =~= s@.subrange(a as int, a + b as int));
    }
    String::from_str(s.substring_char(a, a + b))
}

/// Whitespace test matching `is_space`.
fn is_space_exec(c: char) -> (r: bool)
    ensures
        r == is_space(c),
{
    c == ' ' || c == '\t' || c == '\n' || c == '\r'
}

} // verus!

//! Character classes and small string operations shared by the parsers.
use vstd::prelude::*;
use vstd::string::*;

verus! {

/// ASCII letters and digits.
pub open spec fn is_ascii_alnum(c: char) -> bool {
    ('0' <= c && c <= '9') || ('a' <= c && c <= 'z') || ('A' <= c && c <= 'Z')
}

/// ASCII hexadecimal digits, either case.
pub open spec fn is_hex_digit(c: char) -> bool {
    ('0' <= c && c <= '9') || ('a' <= c && c <= 'f') || ('A' <= c && c <= 'F')
}

/// Whether `c` is an ASCII letter or digit (`char::is_ascii_alphanumeric`).
pub fn ascii_alnum(c: char) -> (res: bool)
    ensures
        res == is_ascii_alnum(c),
{
    ('0' <= c && c <= '9') || ('a' <= c && c <= 'z') || ('A' <= c && c <= 'Z')
}

/// Whether `c` is an ASCII hex digit (`char::is_ascii_hexdigit`).
pub fn hex_digit(c: char) -> (res: bool)
    ensures
        res == is_hex_digit(c),
{
    ('0' <= c && c <= '9') || ('a' <= c && c <= 'f') || ('A' <= c && c <= 'F')
}

/// Appends one character (`String::push`).
#[verifier::external_body]
pub(crate) fn push_char(s: &mut String, c: char)
    ensures
        final(s)@ == old(s)@.push(c),
{
    s.push(c);
}

/// Character-wise equality of two string slices.
pub fn str_eq(a: &str, b: &str) -> (res: bool)
    ensures
        res == (a@ == b@),
{
    let n = a.unicode_len();
    if n != b.unicode_len() {
        return false;
    }
    let mut i: usize = 0;
    while i < n
        invariant
            n == a@.len(),
            n == b@.len(),
            i <= n,
            forall|j: int| 0 <= j < i ==> a@[j] == b@[j],
        decreases n - i,
    {
        if a.get_char(i) != b.get_char(i) {
            return false;
        }
        i = i + 1;
    }
    assert(a@ =~= b@);
    true
}

/// A fresh `String` holding the characters of `s`.
pub fn owned(s: &str) -> (res: String)
    ensures
        res@ == s@,
{
    s.to_owned()
}

/// The concatenation of `a` and `b`.
pub fn concat2(a: &str, b: &str) -> (res: String)
    ensures
        res@ == a@ + b@,
{
    let mut r = a.to_owned();
    r.append(b);
    r
}

/// The concatenation of `a`, `b` and `c`.
pub fn concat3(a: &str, b: &str, c: &str) -> (res: String)
    ensures
        res@ == a@ + b@ + c@,
{
    let mut r = a.to_owned();
    r.append(b);
    r.append(c);
    r
}

/// ASCII decimal digits.
pub open spec fn is_decimal_digit(c: char) -> bool {
    '0' <= c && c <= '9'
}

/// Every character of `s` is a decimal digit.
pub open spec fn all_decimal(s: Seq<char>) -> bool {
    forall|i: int| 0 <= i < s.len() ==> is_decimal_digit(#[trigger] s[i])
}

/// The number written by a sequence of decimal digits (most significant
/// first); 0 for the empty sequence.
pub open spec fn decimal_value(s: Seq<char>) -> int
    decreases s.len(),
{
    if s.len() == 0 {
        0
    } else {
        decimal_value(s.drop_last()) * 10 + (s.last() as int - '0' as int)
    }
}

/// What `str::parse::<u64>` accepts and yields: an optional leading `+`,
/// then one or more decimal digits whose value fits in 64 bits.
pub open spec fn spec_parse_u64(s: Seq<char>) -> Option<u64> {
    let digits = if s.len() > 0 && s[0] == '+' { s.drop_first() } else { s };
    if digits.len() > 0 && all_decimal(digits) && decimal_value(digits)
        <= u64::MAX {
        Some(decimal_value(digits) as u64)
    } else {
        None
    }
}

proof fn lemma_decimal_value_nonneg(s: Seq<char>)
    requires
        all_decimal(s),
    ensures
        decimal_value(s) >= 0,
    decreases s.len(),
{
    if s.len() > 0 {
        assert(is_decimal_digit(s[s.len() - 1]));
        lemma_decimal_value_nonneg(s.drop_last());
    }
}

/// The value of a digit string never drops when digits are appended.
proof fn lemma_decimal_value_prefix(s: Seq<char>, i: int)
    requires
        0 <= i <= s.len(),
        all_decimal(s),
    ensures
        decimal_value(s.take(i)) <= decimal_value(s),
    decreases s.len() - i,
{
    if i < s.len() {
        lemma_decimal_value_prefix(s, i + 1);
        assert(s.take(i + 1).drop_last() =~= s.take(i));
        assert(is_decimal_digit(s[i]));
        lemma_decimal_value_nonneg(s.take(i));
        assert(all_decimal(s.take(i)));
    } else {
        assert(s.take(i) =~= s);
    }
}

/// Parses an unsigned decimal number the way `str::parse::<u64>` does.
pub fn parse_u64(s: &str) -> (res: Option<u64>)
    ensures
        res == spec_parse_u64(s@),
{
    let n = s.unicode_len();
    let start: usize = if n > 0 && s.get_char(0) == '+' { 1 } else { 0 };
    let ghost digits = if s@.len() > 0 && s@[0] == '+' { s@.drop_first() } else { s@ };
    assert(digits =~= s@.skip(start as int));
    if start == n {
        return None;
    }
    let mut value: u64 = 0;
    let mut i: usize = start;
    while i < n
        invariant
            n == s@.len(),
            start <= i <= n,
            digits =~= s@.skip(start as int),
            digits == (if s@.len() > 0 && s@[0] == '+' { s@.drop_first() } else { s@ }),
            all_decimal(digits.take(i - start)),
            value as int == decimal_value(digits.take(i - start)),
        decreases n - i,
    {
        let c = s.get_char(i);
        assert(digits[i - start] == c);
        assert(digits.take(i + 1 - start).drop_last() =~= digits.take(i - start));
        if !('0' <= c && c <= '9') {
            assert(!is_decimal_digit(digits[i - start]));
            return None;
        }
        let d = (c as u32 - '0' as u32) as u64;
        if value > (u64::MAX - d) / 10 {
            proof {
                assert(decimal_value(digits.take(i + 1 - start)) > u64::MAX);
                if all_decimal(digits) {
                    lemma_decimal_value_prefix(digits, i + 1 - start);
                }
            }
            return None;
        }
        value = value * 10 + d;
        i = i + 1;
    }
    assert(digits.take(n - start) =~= digits);
    Some(value)
}

/// Unicode `White_Space` (what `char::is_whitespace` tests).
pub open spec fn is_whitespace(c: char) -> bool {
    ('\u{9}' <= c && c <= '\u{d}') || c == ' ' || c == '\u{85}' || c == '\u{a0}' || c == '\u{1680}'
        || ('\u{2000}' <= c && c <= '\u{200a}') || c == '\u{2028}' || c == '\u{2029}' || c
        == '\u{202f}' || c == '\u{205f}' || c == '\u{3000}'
}

/// Whether `c` is whitespace (`char::is_whitespace`).
pub fn whitespace(c: char) -> (res: bool)
    ensures
        res == is_whitespace(c),
{
    ('\u{9}' <= c && c <= '\u{d}') || c == ' ' || c == '\u{85}' || c == '\u{a0}' || c == '\u{1680}'
        || ('\u{2000}' <= c && c <= '\u{200a}') || c == '\u{2028}' || c == '\u{2029}' || c
        == '\u{202f}' || c == '\u{205f}' || c == '\u{3000}'
}

/// `s` without its leading whitespace.
pub open spec fn trim_start(s: Seq<char>) -> Seq<char>
    decreases s.len(),
{
    if s.len() > 0 && is_whitespace(s[0]) {
        trim_start(s.drop_first())
    } else {
        s
    }
}

/// `s` without its trailing whitespace.
pub open spec fn trim_end(s: Seq<char>) -> Seq<char>
    decreases s.len(),
{
    if s.len() > 0 && is_whitespace(s.last()) {
        trim_end(s.drop_last())
    } else {
        s
    }
}

/// `str::trim`: leading and trailing whitespace removed.
pub open spec fn spec_trim(s: Seq<char>) -> Seq<char> {
    trim_end(trim_start(s))
}

proof fn lemma_trim_start_skip(s: Seq<char>, i: int)
    requires
        0 <= i < s.len(),
        is_whitespace(s[i]),
    ensures
        trim_start(s.skip(i)) == trim_start(s.skip(i + 1)),
{
    assert(s.skip(i).drop_first() =~= s.skip(i + 1));
}

proof fn lemma_trim_end_take(s: Seq<char>, j: int)
    requires
        0 < j <= s.len(),
        is_whitespace(s[j - 1]),
    ensures
        trim_end(s.take(j)) == trim_end(s.take(j - 1)),
{
    assert(s.take(j).drop_last() =~= s.take(j - 1));
}

/// Removes leading and trailing whitespace (`str::trim`).
pub fn trim(s: &str) -> (res: String)
    ensures
        res@ == spec_trim(s@),
{
    let n = s.unicode_len();
    let mut i: usize = 0;
    assert(s@.skip(0) =~= s@);
    while i < n && whitespace(s.get_char(i))
        invariant
            n == s@.len(),
            i <= n,
            trim_start(s@) == trim_start(s@.skip(i as int)),
        decreases n - i,
    {
        proof {
            lemma_trim_start_skip(s@, i as int);
        }
        i = i + 1;
    }
    let ghost front = s@.skip(i as int);
    assert(trim_start(front) == front);
    let mut j: usize = n;
    assert(front.take(n - i) =~= front);
    while j > i && whitespace(s.get_char(j - 1))
        invariant
            n == s@.len(),
            i <= j <= n,
            front == s@.skip(i as int),
            trim_end(front) == trim_end(front.take(j - i)),
        decreases j,
    {
        proof {
            assert(front[j - 1 - i] == s@[j - 1]);
            lemma_trim_end_take(front, j - i);
        }
        j = j - 1;
    }
    proof {
        if j > i {
            assert(front.take(j - i).last() == s@[j - 1]);
        }
        assert(trim_end(front.take(j - i)) == front.take(j - i));
        assert(s@.subrange(i as int, j as int) =~= front.take(j - i));
    }
    s.substring_char(i, j).to_owned()
}

/// `s` without every leading `c` (`str::trim_start_matches(c)`).
pub open spec fn strip_leading(s: Seq<char>, c: char) -> Seq<char>
    decreases s.len(),
{
    if s.len() > 0 && s[0] == c {
        strip_leading(s.drop_first(), c)
    } else {
        s
    }
}

/// Removes every leading `c` (`str::trim_start_matches(c)`).
pub fn trim_start_matches(s: &str, c: char) -> (res: String)
    ensures
        res@ == strip_leading(s@, c),
{
    let n = s.unicode_len();
    let mut i: usize = 0;
    assert(s@.skip(0) =~= s@);
    while i < n && s.get_char(i) == c
        invariant
            n == s@.len(),
            i <= n,
            strip_leading(s@, c) == strip_leading(s@.skip(i as int), c),
        decreases n - i,
    {
        assert(s@.skip(i as int).drop_first() =~= s@.skip(i + 1));
        i = i + 1;
    }
    assert(s@.subrange(i as int, n as int) =~= s@.skip(i as int));
    s.substring_char(i, n).to_owned()
}

} // verus!

//! Character-level text utilities over the `Seq<char>` view of strings:
//! substring search, non-overlapping match counting, decimal rendering.

use vstd::prelude::*;


verus! {

/// `needle` occurs in `hay` starting at position `i`.
pub open spec fn occurs_at(hay: Seq<char>, needle: Seq<char>, i: int) -> bool {
    &&& 0 <= i
    &&& i + needle.len() <= hay.len()
    &&& hay.subrange(i, i + needle.len()) == needle
}

/// `needle` occurs somewhere in `hay` (the empty needle occurs everywhere).
pub open spec fn has_text(hay: Seq<char>, needle: Seq<char>) -> bool {
    exists|i: int| occurs_at(hay, needle, i)
}

/// Number of non-overlapping occurrences of a non-empty `needle` in `hay`,
/// scanning from the left and resuming after each match.
pub open spec fn count_text(hay: Seq<char>, needle: Seq<char>) -> nat
    decreases hay.len(),
{
    if needle.len() == 0 || hay.len() < needle.len() {
        0
    } else if hay.take(needle.len() as int) == needle {
        1 + count_text(hay.skip(needle.len() as int), needle)
    } else {
        count_text(hay.skip(1), needle)
    }
}

/// The character of a decimal digit.
pub open spec fn digit_char(d: nat) -> char {
    if d == 0 { '0' }
    else if d == 1 { '1' }
    else if d == 2 { '2' }
    else if d == 3 { '3' }
    else if d == 4 { '4' }
    else if d == 5 { '5' }
    else if d == 6 { '6' }
    else if d == 7 { '7' }
    else if d == 8 { '8' }
    else { '9' }
}

/// Decimal rendering of a natural number, without leading zeros.
pub open spec fn decimal(n: nat) -> Seq<char>
    decreases n,
{
    if n < 10 {
        seq![digit_char(n)]
    } else {
        decimal(n / 10).push(digit_char(n % 10))
    }
}

/// Decimal rendering of an integer, with a leading `-` when negative.
pub open spec fn signed_decimal(i: int) -> Seq<char> {
    if i < 0 {
        seq!['-'] + decimal((-i) as nat)
    } else {
        decimal(i as nat)
    }
}

/// Text is found where it occurs: a needle placed anywhere is found, and a
/// needle longer than the text is not.
pub proof fn lemma_has_text_finds(a: Seq<char>, needle: Seq<char>, b: Seq<char>)
    ensures
        has_text(a + needle + b, needle),
        needle.len() > a.len() ==> !has_text(a, needle),
{
    assert((a + needle + b).subrange(a.len() as int, (a.len() + needle.len()) as int) =~= needle);
    assert(occurs_at(a + needle + b, needle, a.len() as int));
}

/// Counting takes a match at the start and resumes after it, skips a start
/// that does not match, and finds nothing in a text shorter than the needle.
pub proof fn lemma_count_text_steps(needle: Seq<char>, rest: Seq<char>, c: char)
    requires
        needle.len() > 0,
    ensures
        count_text(needle + rest, needle) == 1 + count_text(rest, needle),
        (seq![c] + rest).len() >= needle.len() && (seq![c] + rest).take(needle.len() as int)
            != needle ==> count_text(seq![c] + rest, needle) == count_text(rest, needle),
        rest.len() < needle.len() ==> count_text(rest, needle) == 0,
{
    assert((needle + rest).take(needle.len() as int) =~= needle);
    assert((needle + rest).skip(needle.len() as int) =~= rest);
    assert((seq![c] + rest).skip(1) =~= rest);
}

/// Copies the characters of a string slice into a vector.
pub fn chars_of(s: &str) -> (v: Vec<char>)
    ensures
        v@ == s@,
{
    let mut v: Vec<char> = Vec::new();
    for c in it: s.chars()
        invariant
            v@ == it.seq().take(it.index() as int),
            it.seq() == s@,
    {
        v.push(c);
    }
    v
}

/// Whether `needle` occurs in `hay` at position `i`.
pub fn matches_at(hay: &[char], needle: &[char], i: usize) -> (r: bool)
    ensures
        r == occurs_at(hay@, needle@, i as int),
{
    if i > hay.len() || needle.len() > hay.len() - i {
        return false;
    }
    let mut k: usize = 0;
    while k < needle.len()
        invariant
            hay.len() == hay@.len(),
            needle.len() == needle@.len(),
            i + needle@.len() <= hay@.len(),
            k <= needle@.len(),
            forall|j: int| 0 <= j < k ==> hay@[i + j] == needle@[j],
        decreases needle@.len() - k,
    {
        if hay[i + k] != needle[k] {
            assert(hay@.subrange(i as int, i + needle@.len())[k as int] != needle@[k as int]);
            return false;
        }
        k = k + 1;
    }
    assert(hay@.subrange(i as int, i + needle@.len()) =~= needle@);
    true
}

/// Whether `needle` occurs anywhere in `hay`.
pub fn contains_text(hay: &[char], needle: &[char]) -> (r: bool)
    ensures
        r == has_text(hay@, needle@),
{
    if needle.len() > hay.len() {
        return false;
    }
    let last: usize = hay.len() - needle.len();
    let mut i: usize = 0;
    loop
        invariant
            last + needle@.len() == hay@.len(),
            i <= last,
            forall|j: int| 0 <= j < i ==> !occurs_at(hay@, needle@, j),
        decreases last - i,
    {
        if matches_at(hay, needle, i) {
            return true;
        }
        if i == last {
            return false;
        }
        i = i + 1;
    }
}

/// Whether `hay` contains the text of the literal `lit`.
pub fn has_literal(hay: &Vec<char>, lit: &str) -> (r: bool)
    ensures
        r == has_text(hay@, lit@),
{
    let n = chars_of(lit);
    contains_text(hay.as_slice(), n.as_slice())
}

/// Skipping a suffix of a skipped sequence is skipping further.
pub proof fn lemma_skip_skip(s: Seq<char>, a: int, b: int)
    requires
        0 <= a,
        0 <= b,
        a + b <= s.len(),
    ensures
        s.skip(a).skip(b) == s.skip(a + b),
{
    assert(s.skip(a).skip(b) =~= s.skip(a + b));
}

/// A match covers its needle: the count times the needle length fits in the text.
pub proof fn lemma_count_text_bound(hay: Seq<char>, needle: Seq<char>)
    requires
        needle.len() > 0,
    ensures
        count_text(hay, needle) * needle.len() <= hay.len(),
    decreases hay.len(),
{
    let n: nat = needle.len();
    if hay.len() < n {
        assert(count_text(hay, needle) == 0);
        assert(0 * n == 0);
    } else if hay.take(n as int) == needle {
        let rest = hay.skip(n as int);
        lemma_count_text_bound(rest, needle);
        let c: nat = count_text(rest, needle);
        assert(count_text(hay, needle) == 1 + c);
        assert((1 + c) * n == n + c * n) by (nonlinear_arith);
        assert(rest.len() == hay.len() - n);
    } else {
        let rest = hay.skip(1);
        lemma_count_text_bound(rest, needle);
        assert(count_text(hay, needle) == count_text(rest, needle));
        assert(rest.len() == hay.len() - 1);
    }
}

/// Number of non-overlapping occurrences of `needle` in `hay`.
pub fn count_occurrences(hay: &[char], needle: &[char]) -> (r: usize)
    requires
        needle@.len() > 0,
    ensures
        r == count_text(hay@, needle@),
{
    let n: usize = needle.len();
    let mut i: usize = 0;
    let mut c: usize = 0;
    proof {
        assert(hay@.skip(0) =~= hay@);
        lemma_count_text_bound(hay@, needle@);
        let c: nat = count_text(hay@, needle@);
        assert(c <= c * needle@.len()) by (nonlinear_arith)
            requires
                needle@.len() > 0,
        ;
    }
    while i < hay.len() && n <= hay.len() - i
        invariant
            n == needle@.len(),
            n > 0,
            i <= hay@.len(),
            c + count_text(hay@.skip(i as int), needle@) == count_text(hay@, needle@),
            count_text(hay@, needle@) <= hay@.len(),
        decreases hay@.len() - i,
    {
        let ghost rest = hay@.skip(i as int);
        proof {
            lemma_count_text_bound(rest, needle@);
        }
        if matches_at(hay, needle, i) {
            proof {
                assert(rest.take(n as int) =~= hay@.subrange(i as int, i + n));
                lemma_skip_skip(hay@, i as int, n as int);
            }
            c = c + 1;
            i = i + n;
        } else {
            proof {
                assert(rest.take(n as int) =~= hay@.subrange(i as int, i + n));
                lemma_skip_skip(hay@, i as int, 1);
            }
            i = i + 1;
        }
    }
    c
}

/// A character with the Unicode `White_Space` property: tab to carriage return,
/// space, U+0085, U+00A0, U+1680, U+2000 to U+200A, U+2028, U+2029, U+202F,
/// U+205F and U+3000.
pub open spec fn white_space(c: char) -> bool {
    let u = c as u32;
    (0x09 <= u <= 0x0d) || u == 0x20 || u == 0x85 || u == 0xa0 || u == 0x1680 || (0x2000 <= u
        <= 0x200a) || u == 0x2028 || u == 0x2029 || u == 0x202f || u == 0x205f || u == 0x3000
}

/// Whether `c` is white space, as `char::is_whitespace` decides.
pub fn is_white_space(c: char) -> (r: bool)
    ensures
        r == white_space(c),
{
    let u: u32 = c as u32;
    (0x09 <= u && u <= 0x0d) || u == 0x20 || u == 0x85 || u == 0xa0 || u == 0x1680 || (0x2000 <= u
        && u <= 0x200a) || u == 0x2028 || u == 0x2029 || u == 0x202f || u == 0x205f || u == 0x3000
}

/// Every character of `s` is white space, so that trimming leaves nothing.
pub open spec fn blank(s: Seq<char>) -> bool {
    forall|i: int| 0 <= i < s.len() ==> white_space(#[trigger] s[i])
}

/// What trimming removes: the empty text is blank, white space keeps a text
/// blank, and any other character anywhere makes it not blank. Space, tab, line
/// feed and carriage return are white space; ASCII letters and digits are not.
pub proof fn lemma_blank_text(a: Seq<char>, c: char, b: Seq<char>)
    ensures
        blank(Seq::empty()),
        blank(a) && white_space(c) ==> blank(a.push(c)),
        !white_space(c) ==> !blank(a.push(c) + b),
        c == ' ' || c == '\t' || c == '\n' || c == '\r' ==> white_space(c),
        ('a' <= c <= 'z') || ('A' <= c <= 'Z') || ('0' <= c <= '9') ==> !white_space(c),
{
    if !white_space(c) {
        assert((a.push(c) + b)[a.len() as int] == c);
    }
    if blank(a) && white_space(c) {
        assert forall|i: int| 0 <= i < a.push(c).len() implies white_space(#[trigger] a.push(c)[i]) by {
            if i < a.len() {
                assert(a.push(c)[i] == a[i]);
            }
        }
    }
}

/// Whether `s` is empty once trimmed, that is whether all its characters are white space.
pub fn is_blank(s: &str) -> (r: bool)
    ensures
        r == blank(s@),
{
    let v = chars_of(s);
    let mut i: usize = 0;
    while i < v.len()
        invariant
            i <= v@.len(),
            v@ == s@,
            forall|j: int| 0 <= j < i ==> white_space(#[trigger] v@[j]),
        decreases v@.len() - i,
    {
        if !is_white_space(v[i]) {
            return false;
        }
        i = i + 1;
    }
    true
}

/// The first `n` characters of `s` (all of them when it is shorter).
pub fn first_chars(s: &str, n: usize) -> (r: String)
    ensures
        r@ == s@.take(if n < s@.len() { n as int } else { s@.len() as int }),
{
    let v = chars_of(s);
    let mut r = String::new();
    let mut i: usize = 0;
    while i < v.len() && i < n
        invariant
            i <= v@.len(),
            i <= n,
            v@ == s@,
            r@ == v@.take(i as int),
        decreases v@.len() - i,
    {
        r.push(v[i]);
        assert(v@.take(i + 1) =~= v@.take(i as int).push(v@[i as int]));
        i = i + 1;
    }
    r
}

/// Value of a sequence of decimal digits.
pub open spec fn digits_value(ds: Seq<char>) -> nat
    decreases ds.len(),
{
    if ds.len() == 0 {
        0
    } else {
        digits_value(ds.drop_last()) * 10 + ((ds.last() as u32) - 48) as nat
    }
}

/// A decimal digit.
pub open spec fn is_digit(c: char) -> bool {
    48 <= (c as u32) <= 57
}

/// The text after an optional leading `+`.
pub open spec fn unsigned_digits(s: Seq<char>) -> Seq<char> {
    if s.len() > 0 && s[0] == '+' {
        s.skip(1)
    } else {
        s
    }
}

/// Every character is a decimal digit.
pub open spec fn all_digits(ds: Seq<char>) -> bool {
    forall|i: int| 0 <= i < ds.len() ==> is_digit(#[trigger] ds[i])
}

/// The unsigned integer that `s` denotes as `str::parse` reads it: an optional
/// `+`, then at least one decimal digit and nothing else, with a value no
/// greater than `max`; `None` otherwise.
pub open spec fn parsed_unsigned(s: Seq<char>, max: nat) -> Option<nat> {
    let body = unsigned_digits(s);
    if body.len() > 0 && all_digits(body) && digits_value(body) <= max {
        Some(digits_value(body))
    } else {
        None
    }
}

proof fn lemma_digits_value_prefix(ds: Seq<char>, k: int)
    requires
        0 <= k <= ds.len(),
        all_digits(ds),
    ensures
        digits_value(ds.take(k)) <= digits_value(ds),
    decreases ds.len() - k,
{
    if k < ds.len() {
        lemma_digits_value_prefix(ds, k + 1);
        assert(ds.take(k + 1).drop_last() =~= ds.take(k));
    } else {
        assert(ds.take(k) =~= ds);
    }
}

/// Parsing reads a decimal rendering back: `decimal(n)`, with or without a
/// leading `+`, parses as `n` when `n` is at most `max` and is refused above it;
/// an empty text never parses.
pub proof fn lemma_parse_reads_decimal(n: nat, max: nat)
    ensures
        n <= max ==> parsed_unsigned(decimal(n), max) == Some(n),
        n <= max ==> parsed_unsigned(seq!['+'] + decimal(n), max) == Some(n),
        n > max ==> parsed_unsigned(decimal(n), max) is None,
        parsed_unsigned(Seq::empty(), max) is None,
{
    lemma_decimal_reads_back(n);
    assert(decimal(n)[0] != '+');
    assert((seq!['+'] + decimal(n)).skip(1) =~= decimal(n));
}

/// Parses an unsigned decimal integer no greater than `max`, as `str::parse`
/// does for unsigned integer types.
pub fn parse_unsigned(s: &str, max: u64) -> (r: Option<u64>)
    ensures
        r matches Some(v) ==> parsed_unsigned(s@, max as nat) == Some(v as nat),
        r is None ==> parsed_unsigned(s@, max as nat) is None,
{
    let v = chars_of(s);
    let start: usize = if v.len() > 0 && v[0] == '+' { 1 } else { 0 };
    let ghost body = unsigned_digits(s@);
    proof {
        assert(v@.skip(start as int) =~= body);
    }
    if start >= v.len() {
        return None;
    }
    let mut acc: u128 = 0;
    let mut i: usize = start;
    while i < v.len()
        invariant
            start <= i <= v@.len(),
            v@ == s@,
            body == v@.skip(start as int),
            body == unsigned_digits(s@),
            forall|j: int| start <= j < i ==> is_digit(#[trigger] v@[j]),
            acc == digits_value(v@.subrange(start as int, i as int)),
            acc <= max,
        decreases v@.len() - i,
    {
        let c = v[i];
        let code: u32 = c as u32;
        if !(48 <= code && code <= 57) {
            proof {
                assert(!is_digit(c));
                assert(body[i - start] == c);
                assert(!is_digit(body[i - start]));
                assert(!all_digits(body));
                assert(parsed_unsigned(s@, max as nat) is None);
            }
            return None;
        }
        let d: u128 = (code - 48) as u128;
        let ghost sub = v@.subrange(start as int, i + 1);
        proof {
            assert(sub.drop_last() =~= v@.subrange(start as int, i as int));
            assert(sub.last() == c);
            assert(digits_value(sub) == digits_value(sub.drop_last()) * 10 + ((c as u32) - 48) as nat);
        }
        acc = acc * 10 + d;
        if acc > max as u128 {
            proof {
                if all_digits(body) {
                    lemma_digits_value_prefix(body, i + 1 - start);
                    assert(body.take(i + 1 - start) =~= sub);
                    assert(digits_value(body) > max);
                }
                assert(parsed_unsigned(s@, max as nat) is None);
            }
            return None;
        }
        i = i + 1;
    }
    proof {
        assert(v@.subrange(start as int, v@.len() as int) =~= body);
        assert forall|j: int| 0 <= j < body.len() implies is_digit(#[trigger] body[j]) by {
            assert(body[j] == v@[j + start]);
        }
        assert(all_digits(body));
    }
    Some(acc as u64)
}

/// Appends a string slice to `out`.
pub fn push_str(out: &mut String, s: &str)
    ensures
        final(out)@ == old(out)@ + s@,
{
    out.append(s);
}

/// The character of the decimal digit `d`.
pub fn digit(d: u64) -> (c: char)
    requires
        d < 10,
    ensures
        c == digit_char(d as nat),
{
    if d == 0 { '0' }
    else if d == 1 { '1' }
    else if d == 2 { '2' }
    else if d == 3 { '3' }
    else if d == 4 { '4' }
    else if d == 5 { '5' }
    else if d == 6 { '6' }
    else if d == 7 { '7' }
    else if d == 8 { '8' }
    else { '9' }
}

/// The decimal rendering of `n` has one more digit than that of `n / 10`.
pub proof fn lemma_decimal_len(n: nat)
    ensures
        decimal(n).len() >= 1,
        n < 10 ==> decimal(n).len() == 1,
        n >= 10 ==> decimal(n).len() == decimal(n / 10).len() + 1,
        10 <= n < 100 ==> decimal(n).len() == 2,
        100 <= n < 1000 ==> decimal(n).len() == 3,
        n >= 1000 ==> decimal(n).len() >= 4,
    decreases n,
{
    if n >= 10 {
        lemma_decimal_len(n / 10);
    }
}

/// The decimal rendering of `n` is a string of digits that reads back as `n`,
/// with no leading zero unless `n` is zero.
pub proof fn lemma_decimal_reads_back(n: nat)
    ensures
        all_digits(decimal(n)),
        digits_value(decimal(n)) == n,
        decimal(n).len() >= 1,
        n > 0 ==> decimal(n)[0] != '0',
    decreases n,
{
    if n < 10 {
        assert(decimal(n).drop_last() =~= Seq::<char>::empty());
        assert(digits_value(Seq::<char>::empty()) == 0);
        assert((digit_char(n) as u32) == 48 + n);
    } else {
        lemma_decimal_reads_back(n / 10);
        let d = decimal(n / 10);
        assert(decimal(n).drop_last() =~= d);
        assert((digit_char(n % 10) as u32) == 48 + n % 10);
        assert(n == (n / 10) * 10 + n % 10);
        assert(decimal(n)[0] == d[0]);
        assert forall|i: int| 0 <= i < decimal(n).len() implies is_digit(#[trigger] decimal(n)[i]) by {
            if i < d.len() {
                assert(decimal(n)[i] == d[i]);
            }
        }
    }
}

/// Appends the decimal rendering of `n` to `out`.
pub fn push_decimal(out: &mut String, n: u64)
    ensures
        final(out)@ == old(out)@ + decimal(n as nat),
    decreases n,
{
    if n >= 10 {
        push_decimal(out, n / 10);
    }
    let d: u64 = n % 10;
    let ch = digit(d);
    out.push(ch);
    proof {
        if n >= 10 {
            assert(decimal(n as nat) == decimal((n / 10) as nat).push(digit_char((n % 10) as nat)));
        }
    }
}

/// Appends the signed decimal rendering of `i` to `out`.
pub fn push_signed_decimal(out: &mut String, i: i64)
    ensures
        final(out)@ == old(out)@ + signed_decimal(i as int),
{
    if i < 0 {
        out.push('-');
        let mag: u64 = if i == i64::MIN { 0x8000_0000_0000_0000u64 } else { (-i) as u64 };
        push_decimal(out, mag);
        proof {
            assert(seq!['-'] + decimal(mag as nat) =~= seq!['-'].add(decimal(mag as nat)));
        }
    } else {
        push_decimal(out, i as u64);
    }
}

} // verus!

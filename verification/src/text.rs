//! String building and reading on character sequences.

use vstd::prelude::*;

verus! {

/// Appends one character; `String::push`.
#[verifier::external_body]
pub(crate) fn push_char(s: &mut String, c: char)
    ensures
        final(s)@ == old(s)@.push(c),
{
    s.push(c);
}

/// The ASCII digit for `d` (0..=9).
pub open spec fn digit_char(d: int) -> char {
    ('0' as int + d) as char
}

/// Decimal representation of a natural number, most significant digit first,
/// without leading zeros ("0" for zero).
pub open spec fn decimal(n: nat) -> Seq<char>
    decreases n,
{
    if n < 10 {
        seq![digit_char(n as int)]
    } else {
        decimal(n / 10).push(digit_char((n % 10) as int))
    }
}

/// Decimal representation of an integer, with a leading `-` when negative.
pub open spec fn signed_decimal(n: int) -> Seq<char> {
    if n < 0 {
        seq!['-'] + decimal((-n) as nat)
    } else {
        decimal(n as nat)
    }
}

/// Writes `n` in decimal.
pub fn u64_to_string(n: u64) -> (s: String)
    ensures
        s@ == decimal(n as nat),
    decreases n,
{
    if n < 10 {
        let mut s = String::new();
        push_char(&mut s, ((n as u8) + 48) as char);
        proof {
            assert(s@ =~= seq![digit_char(n as int)]);
        }
        s
    } else {
        let mut s = u64_to_string(n / 10);
        push_char(&mut s, (((n % 10) as u8) + 48) as char);
        s
    }
}

/// Writes `n` in decimal, with a leading `-` when negative.
pub fn i64_to_string(n: i64) -> (s: String)
    ensures
        s@ == signed_decimal(n as int),
{
    if n < 0 {
        let magnitude: u64 = if n == i64::MIN {
            9223372036854775808u64
        } else {
            (-n) as u64
        };
        let digits = u64_to_string(magnitude);
        let mut s = String::new();
        push_char(&mut s, '-');
        s.append(digits.as_str());
        proof {
            assert(s@ =~= seq!['-'] + decimal((-n) as nat));
        }
        s
    } else {
        u64_to_string(n as u64)
    }
}

/// Character-wise equality of two string slices.
pub fn str_eq(a: &str, b: &str) -> (r: bool)
    ensures
        r == (a@ == b@),
{
    let n = a.unicode_len();
    let m = b.unicode_len();
    if n != m {
        return false;
    }
    let mut i: usize = 0;
    while i < n
        invariant
            n == a@.len(),
            m == b@.len(),
            n == m,
            i <= n,
            a@.take(i as int) == b@.take(i as int),
        decreases n - i,
    {
        if a.get_char(i) != b.get_char(i) {
            assert(a@[i as int] != b@[i as int]);
            return false;
        }
        assert(a@.take(i + 1) =~= a@.take(i as int).push(a@[i as int]));
        assert(b@.take(i + 1) =~= b@.take(i as int).push(b@[i as int]));
        i = i + 1;
    }
    assert(a@ =~= a@.take(n as int));
    assert(b@ =~= b@.take(n as int));
    true
}

/// A `String` holding the characters of `s`.
pub fn owned(s: &str) -> (r: String)
    ensures
        r@ == s@,
{
    String::from_str(s)
}

/// Whether `c` is an ASCII decimal digit.
pub open spec fn is_digit(c: char) -> bool {
    '0' <= c && c <= '9'
}

/// The value of a string of decimal digits, most significant first.
pub open spec fn digits_value(s: Seq<char>) -> nat
    decreases s.len(),
{
    if s.len() == 0 {
        0
    } else {
        digits_value(s.drop_last()) * 10 + (s.last() as nat - '0' as nat) as nat
    }
}

/// Whether every character of `s` is a decimal digit.
pub open spec fn all_digits(s: Seq<char>) -> bool {
    forall|i: int| 0 <= i < s.len() ==> is_digit(#[trigger] s[i])
}

/// What `str::parse::<i32>` gives for `s`: an optional `+` or `-`, then one
/// or more decimal digits, and a value within the range of `i32`.
pub open spec fn spec_parse_i32(s: Seq<char>) -> Option<int> {
    let negative = s.len() > 0 && s[0] == '-';
    let signed = s.len() > 0 && (s[0] == '-' || s[0] == '+');
    let digits = if signed { s.skip(1) } else { s };
    if digits.len() == 0 || !all_digits(digits) {
        None
    } else {
        let v = if negative { -(digits_value(digits) as int) } else { digits_value(digits) as int };
        if i32::MIN <= v <= i32::MAX {
            Some(v)
        } else {
            None
        }
    }
}

proof fn lemma_capped_digit_step(v: nat, d: nat, cap: nat)
    ensures
        (if v <= cap { v } else { cap }) * 10 + d >= cap ==> v * 10 + d >= cap,
        (if v <= cap { v } else { cap }) * 10 + d < cap ==> (if v <= cap { v } else { cap }) * 10 + d == v * 10 + d,
{
    if v > cap {
        assert(v * 10 >= cap * 10) by (nonlinear_arith)
            requires
                v > cap,
        ;
    }
}

/// Parses `s` as `str::parse::<i32>` does.
#[verifier::spinoff_prover]
pub fn parse_i32(s: &str) -> (r: Option<i32>)
    ensures
        match r {
            Some(v) => spec_parse_i32(s@) == Some(v as int),
            None => spec_parse_i32(s@) is None,
        },
{
    let n = s.unicode_len();
    if n == 0 {
        return None;
    }
    let first = s.get_char(0);
    let negative = first == '-';
    let start: usize = if first == '-' || first == '+' { 1 } else { 0 };
    let ghost digits = if start == 1 { s@.skip(1) } else { s@ };
    assert(digits =~= s@.subrange(start as int, n as int));
    if start == n {
        return None;
    }
    let cap: u64 = 2_147_483_649;
    let mut acc: u64 = 0;
    let mut i: usize = start;
    while i < n
        invariant
            n == s@.len(),
            start <= i <= n,
            start <= 1,
            n > 0,
            negative == (s@[0] == '-'),
            digits == (if s@[0] == '-' || s@[0] == '+' { s@.skip(1) } else { s@ }),
            digits == s@.subrange(start as int, n as int),
            all_digits(s@.subrange(start as int, i as int)),
            acc as nat == (if digits_value(s@.subrange(start as int, i as int)) <= cap as nat {
                digits_value(s@.subrange(start as int, i as int))
            } else {
                cap as nat
            }),
            cap == 2_147_483_649,
        decreases n - i,
    {
        let c = s.get_char(i);
        if !('0' <= c && c <= '9') {
            proof {
                assert(digits[i - start] == c);
                assert(!all_digits(digits));
            }
            return None;
        }
        let d = (c as u32 - '0' as u32) as u64;
        let ghost prefix = s@.subrange(start as int, i as int);
        let ghost next = s@.subrange(start as int, i + 1);
        proof {
            assert(next.drop_last() =~= prefix);
            assert(next.last() == c);
            assert(digits_value(next) == digits_value(prefix) * 10 + d);
            lemma_capped_digit_step(digits_value(prefix), d as nat, cap as nat);
            assert forall|k: int| 0 <= k < next.len() implies is_digit(#[trigger] next[k]) by {
                if k < prefix.len() {
                    assert(next[k] == prefix[k]);
                }
            }
        }
        let step = acc * 10 + d;
        acc = if step <= cap { step } else { cap };
        i = i + 1;
    }
    assert(s@.subrange(start as int, n as int) == digits);
    if negative {
        if acc <= 2_147_483_648 {
            Some((0i64 - acc as i64) as i32)
        } else {
            None
        }
    } else {
        if acc <= 2_147_483_647 {
            Some(acc as i32)
        } else {
            None
        }
    }
}

/// `s` without the characters that occur in `removed`.
pub open spec fn without_chars(s: Seq<char>, removed: Seq<char>) -> Seq<char>
    decreases s.len(),
{
    if s.len() == 0 {
        s
    } else if removed.contains(s.last()) {
        without_chars(s.drop_last(), removed)
    } else {
        without_chars(s.drop_last(), removed).push(s.last())
    }
}

/// Whether `c` occurs in `s`.
pub fn contains_char(s: &str, c: char) -> (r: bool)
    ensures
        r == s@.contains(c),
{
    let n = s.unicode_len();
    let mut i: usize = 0;
    while i < n
        invariant
            n == s@.len(),
            i <= n,
            forall|k: int| 0 <= k < i ==> s@[k] != c,
        decreases n - i,
    {
        if s.get_char(i) == c {
            assert(s@[i as int] == c);
            return true;
        }
        i = i + 1;
    }
    false
}

/// `s` without the characters that occur in `removed` (`str::replace` of
/// each of them with nothing).
pub fn remove_chars(s: &str, removed: &str) -> (r: String)
    ensures
        r@ == without_chars(s@, removed@),
{
    let n = s.unicode_len();
    let mut r = String::new();
    let mut i: usize = 0;
    while i < n
        invariant
            n == s@.len(),
            i <= n,
            r@ == without_chars(s@.take(i as int), removed@),
        decreases n - i,
    {
        let c = s.get_char(i);
        proof {
            assert(s@.take(i + 1).drop_last() =~= s@.take(i as int));
            assert(s@.take(i + 1).last() == c);
        }
        if !contains_char(removed, c) {
            push_char(&mut r, c);
        }
        i = i + 1;
    }
    assert(s@.take(n as int) =~= s@);
    r
}

/// Index of the first `c` in `s`, or the length of `s` when there is none.
pub open spec fn first_pos(s: Seq<char>, c: char) -> nat
    decreases s.len(),
{
    if s.len() == 0 {
        0
    } else if s[0] == c {
        0
    } else {
        1 + first_pos(s.drop_first(), c)
    }
}

/// Index just past the last `c` in `s`, or 0 when there is none.
pub open spec fn last_pos_end(s: Seq<char>, c: char) -> nat
    decreases s.len(),
{
    if s.len() == 0 {
        0
    } else if s.last() == c {
        s.len()
    } else {
        last_pos_end(s.drop_last(), c)
    }
}

/// The part of `s` before its first `c` (all of `s` when there is none);
/// what `s.split(c).next()` gives.
pub open spec fn before_first(s: Seq<char>, c: char) -> Seq<char> {
    s.take(first_pos(s, c) as int)
}

/// The part of `s` after its last `c` (all of `s` when there is none);
/// what `s.split(c).next_back()` gives.
pub open spec fn after_last(s: Seq<char>, c: char) -> Seq<char> {
    s.skip(last_pos_end(s, c) as int)
}

/// The pieces of `s` between occurrences of `c`, in order; what
/// `s.split(c)` yields. There is always at least one piece.
pub open spec fn split_on(s: Seq<char>, c: char) -> Seq<Seq<char>>
    decreases s.len(),
{
    let p = first_pos(s, c);
    if p >= s.len() {
        seq![s]
    } else {
        seq![s.take(p as int)] + split_on(s.skip(p + 1 as int), c)
    }
}

/// The first `c` lies within `s`, and nothing before it is `c`.
pub proof fn lemma_first_pos_bound(s: Seq<char>, c: char)
    ensures
        first_pos(s, c) <= s.len(),
        first_pos(s, c) < s.len() ==> s[first_pos(s, c) as int] == c,
        forall|k: int| 0 <= k < first_pos(s, c) ==> s[k] != c,
    decreases s.len(),
{
    if s.len() > 0 && s[0] != c {
        lemma_first_pos_bound(s.drop_first(), c);
        assert forall|k: int| 0 <= k < first_pos(s, c) implies s[k] != c by {
            if k > 0 {
                assert(s[k] == s.drop_first()[k - 1]);
            }
        }
    }
}

proof fn lemma_first_pos_skip(s: Seq<char>, c: char, i: int)
    requires
        0 <= i < s.len(),
        s[i] != c,
    ensures
        first_pos(s.skip(i), c) == 1 + first_pos(s.skip(i + 1), c),
{
    assert(s.skip(i).drop_first() =~= s.skip(i + 1));
}

/// Index of the first `c` in `s`, or the length of `s` when there is none.
pub fn find_char(s: &str, c: char) -> (p: usize)
    ensures
        p == first_pos(s@, c),
{
    let n = s.unicode_len();
    let mut i: usize = 0;
    assert(s@.skip(0) =~= s@);
    while i < n && s.get_char(i) != c
        invariant
            n == s@.len(),
            i <= n,
            first_pos(s@, c) == i + first_pos(s@.skip(i as int), c),
        decreases n - i,
    {
        proof {
            lemma_first_pos_skip(s@, c, i as int);
        }
        i = i + 1;
    }
    proof {
        if i < n {
            assert(s@.skip(i as int)[0] == c);
        } else {
            assert(s@.skip(i as int).len() == 0);
        }
    }
    i
}

/// The part of `s` before its first `c`.
pub fn part_before_first<'a>(s: &'a str, c: char) -> (r: &'a str)
    ensures
        r@ == before_first(s@, c),
{
    let p = find_char(s, c);
    proof {
        lemma_first_pos_bound(s@, c);
    }
    s.substring_char(0, p)
}

/// The part of `s` after its last `c`.
pub fn part_after_last<'a>(s: &'a str, c: char) -> (r: &'a str)
    ensures
        r@ == after_last(s@, c),
{
    let n = s.unicode_len();
    let mut i: usize = n;
    assert(s@.take(n as int) =~= s@);
    while i > 0 && s.get_char(i - 1) != c
        invariant
            n == s@.len(),
            i <= n,
            last_pos_end(s@, c) == last_pos_end(s@.take(i as int), c),
        decreases i,
    {
        proof {
            assert(s@.take(i as int).drop_last() =~= s@.take(i - 1));
        }
        i = i - 1;
    }
    proof {
        if i > 0 {
            assert(s@.take(i as int).last() == c);
        }
    }
    s.substring_char(i, n)
}

/// The pieces of `s` between occurrences of `c`, in order.
pub fn split_char(s: &str, c: char) -> (r: Vec<String>)
    ensures
        r@.map_values(|t: String| t@) == split_on(s@, c),
    decreases s@.len(),
{
    let n = s.unicode_len();
    let p = find_char(s, c);
    proof {
        lemma_first_pos_bound(s@, c);
    }
    if p >= n {
        let mut r = Vec::new();
        r.push(owned(s));
        assert(r@.map_values(|t: String| t@) =~= seq![s@]);
        r
    } else {
        let head = owned(s.substring_char(0, p));
        let rest = s.substring_char(p + 1, n);
        assert(rest@ =~= s@.skip(p + 1));
        let tail = split_char(rest, c);
        let mut r = Vec::new();
        r.push(head);
        let mut j: usize = 0;
        while j < tail.len()
            invariant
                r@.len() == j + 1,
                r@[0]@ == s@.take(p as int),
                forall|k: int| 0 <= k < j ==> #[trigger] r@[k + 1]@ == tail@[k]@,
                j <= tail@.len(),
            decreases tail.len() - j,
        {
            r.push(tail[j].clone());
            j = j + 1;
        }
        let ghost expected = seq![s@.take(p as int)] + tail@.map_values(|t: String| t@);
        let ghost got = r@.map_values(|t: String| t@);
        assert forall|k: int| 0 <= k < r@.len() implies #[trigger] got[k] == expected[k] by {
            if k > 0 {
                assert(r@[(k - 1) + 1]@ == tail@[k - 1]@);
            }
        }
        assert(got =~= expected);
        r
    }
}

/// Whether `s` starts with `prefix`.
pub open spec fn has_prefix(s: Seq<char>, prefix: Seq<char>) -> bool {
    prefix.len() <= s.len() && s.take(prefix.len() as int) == prefix
}

/// The rest of `s` after `prefix`, when `s` starts with it; `str::strip_prefix`.
pub fn strip_prefix<'a>(s: &'a str, prefix: &str) -> (r: Option<&'a str>)
    ensures
        match r {
            Some(rest) => has_prefix(s@, prefix@) && rest@ == s@.skip(prefix@.len() as int),
            None => !has_prefix(s@, prefix@),
        },
{
    let n = s.unicode_len();
    let m = prefix.unicode_len();
    if m > n {
        return None;
    }
    let head = s.substring_char(0, m);
    if str_eq(head, prefix) {
        Some(s.substring_char(m, n))
    } else {
        None
    }
}

/// `a` followed by `b`.
pub fn concat(a: &str, b: &str) -> (r: String)
    ensures
        r@ == a@ + b@,
{
    let mut r = owned(a);
    r.append(b);
    r
}

/// Whether `c` is white space in the sense of `char::is_whitespace`
/// (the Unicode `White_Space` property).
pub open spec fn is_white_space(c: char) -> bool {
    ||| ('\u{9}' <= c && c <= '\u{d}')
    ||| c == ' '
    ||| c == '\u{85}'
    ||| c == '\u{a0}'
    ||| c == '\u{1680}'
    ||| ('\u{2000}' <= c && c <= '\u{200a}')
    ||| c == '\u{2028}'
    ||| c == '\u{2029}'
    ||| c == '\u{202f}'
    ||| c == '\u{205f}'
    ||| c == '\u{3000}'
}

fn white_space(c: char) -> (r: bool)
    ensures
        r == is_white_space(c),
{
    ('\u{9}' <= c && c <= '\u{d}') || c == ' ' || c == '\u{85}' || c == '\u{a0}' || c == '\u{1680}'
        || ('\u{2000}' <= c && c <= '\u{200a}') || c == '\u{2028}' || c == '\u{2029}'
        || c == '\u{202f}' || c == '\u{205f}' || c == '\u{3000}'
}

/// Number of white-space characters at the start of `s`.
pub open spec fn leading_ws(s: Seq<char>) -> nat
    decreases s.len(),
{
    if s.len() > 0 && is_white_space(s[0]) {
        1 + leading_ws(s.drop_first())
    } else {
        0
    }
}

/// Number of white-space characters at the end of `s`.
pub open spec fn trailing_ws(s: Seq<char>) -> nat
    decreases s.len(),
{
    if s.len() > 0 && is_white_space(s.last()) {
        1 + trailing_ws(s.drop_last())
    } else {
        0
    }
}

/// `s` without leading and trailing white space; `str::trim`.
pub open spec fn trimmed(s: Seq<char>) -> Seq<char> {
    let t = s.skip(leading_ws(s) as int);
    t.take(t.len() - trailing_ws(t))
}

proof fn lemma_leading_ws_bound(s: Seq<char>)
    ensures
        leading_ws(s) <= s.len(),
    decreases s.len(),
{
    if s.len() > 0 && is_white_space(s[0]) {
        lemma_leading_ws_bound(s.drop_first());
    }
}

proof fn lemma_trailing_ws_bound(s: Seq<char>)
    ensures
        trailing_ws(s) <= s.len(),
    decreases s.len(),
{
    if s.len() > 0 && is_white_space(s.last()) {
        lemma_trailing_ws_bound(s.drop_last());
    }
}

/// `s` without leading and trailing white space.
pub fn trim<'a>(s: &'a str) -> (r: &'a str)
    ensures
        r@ == trimmed(s@),
{
    let n = s.unicode_len();
    let mut lo: usize = 0;
    assert(s@.skip(0) =~= s@);
    while lo < n && white_space(s.get_char(lo))
        invariant
            n == s@.len(),
            lo <= n,
            leading_ws(s@) == lo + leading_ws(s@.skip(lo as int)),
        decreases n - lo,
    {
        assert(s@.skip(lo as int).drop_first() =~= s@.skip(lo + 1));
        lo = lo + 1;
    }
    proof {
        if lo < n {
            assert(s@.skip(lo as int)[0] == s@[lo as int]);
        }
    }
    let ghost t = s@.skip(lo as int);
    let mut hi: usize = n;
    assert(t.take(t.len() as int) =~= t);
    while hi > lo && white_space(s.get_char(hi - 1))
        invariant
            n == s@.len(),
            lo <= hi <= n,
            t == s@.skip(lo as int),
            trailing_ws(t) == (n - hi) + trailing_ws(t.take(hi - lo)),
        decreases hi,
    {
        assert(t.take(hi - lo).drop_last() =~= t.take(hi - 1 - lo));
        assert(t.take(hi - lo).last() == s@[hi - 1]);
        hi = hi - 1;
    }
    proof {
        if hi > lo {
            assert(t.take(hi - lo).last() == s@[hi - 1]);
        }
        assert(t.take(hi - lo) =~= s@.subrange(lo as int, hi as int));
    }
    s.substring_char(lo, hi)
}

/// Whether `s` ends with `suffix`.
pub open spec fn has_suffix(s: Seq<char>, suffix: Seq<char>) -> bool {
    suffix.len() <= s.len() && s.skip(s.len() - suffix.len()) == suffix
}

/// `s` without `suffix`, when it ends with it; `str::strip_suffix`.
pub fn strip_suffix<'a>(s: &'a str, suffix: &str) -> (r: Option<&'a str>)
    ensures
        match r {
            Some(rest) => has_suffix(s@, suffix@) && rest@ == s@.take(s@.len() - suffix@.len()),
            None => !has_suffix(s@, suffix@),
        },
{
    let n = s.unicode_len();
    let m = suffix.unicode_len();
    if m > n {
        return None;
    }
    let tail = s.substring_char(n - m, n);
    assert(tail@ =~= s@.skip(n - m));
    if str_eq(tail, suffix) {
        Some(s.substring_char(0, n - m))
    } else {
        None
    }
}

/// Number of decimal digits at the start of `s`.
pub open spec fn leading_digits(s: Seq<char>) -> nat
    decreases s.len(),
{
    if s.len() > 0 && is_digit(s[0]) {
        1 + leading_digits(s.drop_first())
    } else {
        0
    }
}

/// Whether `c` is the lower-case ASCII letter `l` in either case.
pub open spec fn same_letter(c: char, l: char) -> bool {
    c == l || ('A' <= c && c <= 'Z' && c as int + 32 == l as int)
}

/// Whether `s` spells the lower-case word `word`, ignoring ASCII case.
pub open spec fn spells(s: Seq<char>, word: Seq<char>) -> bool {
    s.len() == word.len() && forall|i: int| 0 <= i < s.len() ==> same_letter(#[trigger] s[i], word[i])
}

/// `s` without one leading `+` or `-`.
pub open spec fn unsigned_part(s: Seq<char>) -> Seq<char> {
    if s.len() > 0 && (s[0] == '+' || s[0] == '-') {
        s.skip(1)
    } else {
        s
    }
}

/// Whether `s` is empty or an exponent: `e` or `E`, an optional sign and
/// one or more digits.
pub open spec fn is_exponent_or_empty(s: Seq<char>) -> bool {
    s.len() == 0 || (same_letter(s[0], 'e') && unsigned_part(s.skip(1)).len() > 0
        && all_digits(unsigned_part(s.skip(1))))
}

/// Whether `s` is a decimal number: digits, with an optional `.` and
/// fraction digits (at least one digit in all), then an optional exponent.
pub open spec fn is_decimal_number(s: Seq<char>) -> bool {
    let d1 = leading_digits(s);
    let rest = s.skip(d1 as int);
    if rest.len() > 0 && rest[0] == '.' {
        let d2 = leading_digits(rest.skip(1));
        d1 + d2 > 0 && is_exponent_or_empty(rest.skip(1).skip(d2 as int))
    } else {
        d1 > 0 && is_exponent_or_empty(rest)
    }
}

/// Whether `str::parse::<f32>` accepts `s`: an optional sign, then `inf`,
/// `infinity` or `nan` in any case, or a decimal number with an optional
/// exponent, as the grammar of `f32::from_str` says.
pub open spec fn is_float_text(s: Seq<char>) -> bool {
    let b = unsigned_part(s);
    spells(b, "inf"@) || spells(b, "infinity"@) || spells(b, "nan"@) || is_decimal_number(b)
}

fn leading_digit_count(s: &str) -> (n: usize)
    ensures
        n == leading_digits(s@),
        n <= s@.len(),
{
    let len = s.unicode_len();
    let mut i: usize = 0;
    assert(s@.skip(0) =~= s@);
    while i < len && is_ascii_digit(s.get_char(i))
        invariant
            len == s@.len(),
            i <= len,
            leading_digits(s@) == i + leading_digits(s@.skip(i as int)),
        decreases len - i,
    {
        assert(s@.skip(i as int).drop_first() =~= s@.skip(i + 1));
        i = i + 1;
    }
    proof {
        if i < len {
            assert(s@.skip(i as int)[0] == s@[i as int]);
        }
    }
    i
}

fn is_ascii_digit(c: char) -> (r: bool)
    ensures
        r == is_digit(c),
{
    '0' <= c && c <= '9'
}

fn letter_matches(c: char, l: char) -> (r: bool)
    requires
        'a' <= l && l <= 'z',
    ensures
        r == same_letter(c, l),
{
    if c == l {
        true
    } else if 'A' <= c && c <= 'Z' {
        (c as u32) + 32 == (l as u32)
    } else {
        false
    }
}

fn spells_word(s: &str, word: &str) -> (r: bool)
    requires
        forall|i: int| 0 <= i < word@.len() ==> 'a' <= #[trigger] word@[i] && word@[i] <= 'z',
    ensures
        r == spells(s@, word@),
{
    let n = s.unicode_len();
    if n != word.unicode_len() {
        return false;
    }
    let mut i: usize = 0;
    while i < n
        invariant
            n == s@.len(),
            n == word@.len(),
            i <= n,
            forall|k: int| 0 <= k < word@.len() ==> 'a' <= #[trigger] word@[k] && word@[k] <= 'z',
            forall|k: int| 0 <= k < i ==> same_letter(#[trigger] s@[k], word@[k]),
        decreases n - i,
    {
        let l = word.get_char(i);
        assert(l == word@[i as int]);
        if !letter_matches(s.get_char(i), l) {
            return false;
        }
        i = i + 1;
    }
    true
}

fn unsigned_slice(s: &str) -> (r: &str)
    ensures
        r@ == unsigned_part(s@),
{
    let n = s.unicode_len();
    if n > 0 && (s.get_char(0) == '+' || s.get_char(0) == '-') {
        s.substring_char(1, n)
    } else {
        s
    }
}

fn all_ascii_digits(s: &str) -> (r: bool)
    ensures
        r == all_digits(s@),
{
    let n = s.unicode_len();
    let mut i: usize = 0;
    while i < n
        invariant
            n == s@.len(),
            i <= n,
            forall|k: int| 0 <= k < i ==> is_digit(#[trigger] s@[k]),
        decreases n - i,
    {
        if !is_ascii_digit(s.get_char(i)) {
            return false;
        }
        i = i + 1;
    }
    true
}

fn exponent_or_empty(s: &str) -> (r: bool)
    ensures
        r == is_exponent_or_empty(s@),
{
    let n = s.unicode_len();
    if n == 0 {
        return true;
    }
    if !letter_matches(s.get_char(0), 'e') {
        return false;
    }
    let after_e = s.substring_char(1, n);
    assert(after_e@ =~= s@.skip(1));
    let digits = unsigned_slice(after_e);
    digits.unicode_len() > 0 && all_ascii_digits(digits)
}

fn decimal_number(s: &str) -> (r: bool)
    ensures
        r == is_decimal_number(s@),
{
    let n = s.unicode_len();
    let d1 = leading_digit_count(s);
    let rest = s.substring_char(d1, n);
    assert(rest@ =~= s@.skip(d1 as int));
    let m = rest.unicode_len();
    if m > 0 && rest.get_char(0) == '.' {
        let after = rest.substring_char(1, m);
        assert(after@ =~= rest@.skip(1));
        let d2 = leading_digit_count(after);
        let tail = after.substring_char(d2, after.unicode_len());
        assert(tail@ =~= after@.skip(d2 as int));
        d1 + d2 > 0 && exponent_or_empty(tail)
    } else {
        d1 > 0 && exponent_or_empty(rest)
    }
}

/// Whether `str::parse::<f32>` accepts `s`.
pub fn float_text(s: &str) -> (r: bool)
    ensures
        r == is_float_text(s@),
{
    let b = unsigned_slice(s);
    proof {
        reveal_strlit("inf");
        reveal_strlit("infinity");
        reveal_strlit("nan");
    }
    spells_word(b, "inf") || spells_word(b, "infinity") || spells_word(b, "nan") || decimal_number(b)
}

/// Whether `w` occurs in `s` at `i` as a whole word: nothing but the ends of
/// `s` or the separator `c` right before and right after it.
pub open spec fn word_at(s: Seq<char>, w: Seq<char>, c: char, i: int) -> bool {
    &&& 0 <= i
    &&& i + w.len() <= s.len()
    &&& s.subrange(i, i + w.len()) == w
    &&& (i == 0 || s[i - 1] == c)
    &&& (i + w.len() == s.len() || s[i + w.len()] == c)
}

proof fn lemma_no_sep_before_first(s: Seq<char>, c: char, j: int)
    requires
        0 <= j < s.len(),
        s[j] == c,
    ensures
        first_pos(s, c) <= j,
{
    lemma_first_pos_bound(s, c);
}

proof fn lemma_split_word_forward(s: Seq<char>, c: char, w: Seq<char>)
    requires
        split_on(s, c).contains(w),
    ensures
        exists|i: int| word_at(s, w, c, i),
    decreases s.len(),
{
    lemma_first_pos_bound(s, c);
    let p = first_pos(s, c);
    let k = choose|k: int| 0 <= k < split_on(s, c).len() && split_on(s, c)[k] == w;
    if p >= s.len() {
        assert(w == s);
        assert(s.subrange(0, w.len() as int) =~= w);
        assert(word_at(s, w, c, 0));
    } else {
        let rest = s.skip(p + 1 as int);
        assert(split_on(s, c) == seq![s.take(p as int)] + split_on(rest, c));
        if k == 0 {
            assert(w == s.take(p as int));
            assert(s.subrange(0, w.len() as int) =~= w);
            assert(word_at(s, w, c, 0));
        } else {
            assert(split_on(rest, c)[k - 1] == w);
            assert(split_on(rest, c).contains(w));
            lemma_split_word_forward(rest, c, w);
            let j = choose|j: int| word_at(rest, w, c, j);
            let i = j + p + 1;
            assert(s.subrange(i, i + w.len()) =~= rest.subrange(j, j + w.len()));
            if j > 0 {
                assert(s[i - 1] == rest[j - 1]);
            }
            if j + w.len() < rest.len() {
                assert(s[i + w.len()] == rest[j + w.len()]);
            }
            assert(word_at(s, w, c, i));
        }
    }
}

proof fn lemma_split_word_backward(s: Seq<char>, c: char, w: Seq<char>, i: int)
    requires
        word_at(s, w, c, i),
        forall|k: int| 0 <= k < w.len() ==> w[k] != c,
    ensures
        split_on(s, c).contains(w),
    decreases s.len(),
{
    lemma_first_pos_bound(s, c);
    let p = first_pos(s, c);
    assert forall|k: int| i <= k < i + w.len() implies s[k] != c by {
        assert(s[k] == s.subrange(i, i + w.len())[k - i]);
    }
    if p >= s.len() {
        if i > 0 {
            assert(s[i - 1] != c);
        }
        if i + w.len() < s.len() {
            assert(s[i + w.len()] != c);
        }
        assert(s.subrange(0, s.len() as int) =~= s);
        assert(w == s);
        assert(split_on(s, c)[0] == w);
    } else {
        let rest = s.skip(p + 1 as int);
        assert(split_on(s, c) == seq![s.take(p as int)] + split_on(rest, c));
        if i == 0 {
            if w.len() == s.len() {
                assert(s[p as int] != c);
            }
            assert(s[w.len() as int] == c);
            lemma_no_sep_before_first(s, c, w.len() as int);
            assert(p == w.len());
            assert(s.take(p as int) =~= w);
            assert(split_on(s, c)[0] == w);
        } else {
            lemma_no_sep_before_first(s, c, i - 1);
            let j = i - p - 1;
            assert(rest.subrange(j, j + w.len()) =~= s.subrange(i, i + w.len()));
            if j > 0 {
                assert(rest[j - 1] == s[i - 1]);
            }
            if j + w.len() < rest.len() {
                assert(rest[j + w.len()] == s[i + w.len()]);
            }
            assert(word_at(rest, w, c, j));
            lemma_split_word_backward(rest, c, w, j);
            let k = choose|k: int| 0 <= k < split_on(rest, c).len() && split_on(rest, c)[k] == w;
            assert(split_on(s, c)[k + 1] == w);
        }
    }
}

/// A word without the separator `c` is one of the pieces of `s` split at
/// `c` exactly when it occurs in `s` as a whole word.
pub proof fn lemma_split_has_word(s: Seq<char>, c: char, w: Seq<char>)
    requires
        forall|k: int| 0 <= k < w.len() ==> w[k] != c,
    ensures
        split_on(s, c).contains(w) <==> exists|i: int| word_at(s, w, c, i),
{
    if split_on(s, c).contains(w) {
        lemma_split_word_forward(s, c, w);
    }
    if exists|i: int| word_at(s, w, c, i) {
        let i = choose|i: int| word_at(s, w, c, i);
        lemma_split_word_backward(s, c, w, i);
    }
}

} // verus!

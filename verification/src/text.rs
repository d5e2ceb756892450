//! Verified text utilities: decimal rendering of integers, decimal
//! parsing, whitespace trimming and prefix tests over character
//! sequences.  Window identifiers and watchdog reports are built and
//! read through these functions.

use vstd::prelude::*;

verus! {

/// A decimal digit character.
pub open spec fn is_digit_char(c: char) -> bool {
    '0' <= c && c <= '9'
}

/// The numeric value of one decimal digit character.
pub open spec fn digit_val(c: char) -> nat {
    (c as nat - '0' as nat) as nat
}

/// The decimal digit character for a value below ten.
pub open spec fn digit_char(d: nat) -> char {
    if d == 0 { '0' }
    else if d == 1 { '1' }
    else if d == 2 { '2' }
    else if d == 3 { '3' }
    else if d == 4 { '4' }
    else if d == 5 { '5' }
    else if d == 6 { '6' }
    else if d == 7 { '7' }
    else if d == 8 { '8' }
    else { '9' }
}

/// The usual decimal rendering of `n`, most significant digit first,
/// with no leading zeros (except for `n == 0` itself).
pub open spec fn decimal_chars(n: nat) -> Seq<char>
    decreases n,
{
    if n < 10 {
        seq![digit_char(n)]
    } else {
        decimal_chars(n / 10).push(digit_char(n % 10))
    }
}

/// A one-character string slice holding the decimal digit `d`.
pub fn digit_str(d: u64) -> (r: &'static str)
    requires
        d < 10,
    ensures
        r@ =~= seq![digit_char(d as nat)],
{
    proof {
        reveal_strlit("0");
        reveal_strlit("1");
        reveal_strlit("2");
        reveal_strlit("3");
        reveal_strlit("4");
        reveal_strlit("5");
        reveal_strlit("6");
        reveal_strlit("7");
        reveal_strlit("8");
        reveal_strlit("9");
    }
    if d == 0 { "0" }
    else if d == 1 { "1" }
    else if d == 2 { "2" }
    else if d == 3 { "3" }
    else if d == 4 { "4" }
    else if d == 5 { "5" }
    else if d == 6 { "6" }
    else if d == 7 { "7" }
    else if d == 8 { "8" }
    else { "9" }
}

/// Appends the decimal rendering of `n` to `out`.
pub fn push_decimal(out: &mut String, n: u64)
    ensures
        final(out)@ == old(out)@ + decimal_chars(n as nat),
    decreases n,
{
    if n >= 10 {
        push_decimal(out, n / 10);
    }
    let d: u64 = n % 10;
    out.append(digit_str(d));
    proof {
        if n < 10 {
            assert(decimal_chars(n as nat) =~= seq![digit_char(n as nat)]);
            assert(final(out)@ =~= old(out)@ + decimal_chars(n as nat));
        } else {
            assert(decimal_chars(n as nat) == decimal_chars(n as nat / 10).push(
                digit_char(n as nat % 10),
            ));
            assert(final(out)@ =~= old(out)@ + decimal_chars(n as nat));
        }
    }
}

/// The decimal rendering of `n` denotes `n`: rendering and reading
/// back are inverses.
pub proof fn lemma_decimal_chars_value(n: nat)
    ensures
        decimal_chars(n).len() >= 1,
        all_digits(decimal_chars(n)),
        digits_val(decimal_chars(n)) == n,
    decreases n,
{
    if n < 10 {
        let s = decimal_chars(n);
        assert(s =~= seq![digit_char(n)]);
        assert(s.drop_last() =~= Seq::<char>::empty());
        assert(digits_val(Seq::<char>::empty()) == 0);
        assert(digits_val(s) == digit_val(digit_char(n)));
    } else {
        lemma_decimal_chars_value(n / 10);
        let s = decimal_chars(n);
        assert(s == decimal_chars(n / 10).push(digit_char(n % 10)));
        assert(s.drop_last() =~= decimal_chars(n / 10));
        assert(s.last() == digit_char(n % 10));
        assert(digits_val(s) == (n / 10) * 10 + n % 10);
        assert(forall|i: int|
            0 <= i < s.len() - 1 ==> s[i] == decimal_chars(n / 10)[i]);
        assert(all_digits(s));
    }
}

/// Different numbers render to different numerals.
pub proof fn lemma_decimal_chars_injective(a: nat, b: nat)
    requires
        decimal_chars(a) == decimal_chars(b),
    ensures
        a == b,
{
    lemma_decimal_chars_value(a);
    lemma_decimal_chars_value(b);
}

/// Every character of `s` is a decimal digit.
pub open spec fn all_digits(s: Seq<char>) -> bool {
    forall|i: int| 0 <= i < s.len() ==> is_digit_char(s[i])
}

/// The numeric value of a digit sequence read as a decimal numeral,
/// most significant digit first.
pub open spec fn digits_val(s: Seq<char>) -> nat
    decreases s.len(),
{
    if s.len() == 0 {
        0
    } else {
        digits_val(s.drop_last()) * 10 + digit_val(s.last())
    }
}

/// The value a decimal numeral denotes: defined exactly when the
/// sequence is non-empty and all digits.
pub open spec fn parse_decimal(s: Seq<char>) -> Option<nat> {
    if s.len() > 0 && all_digits(s) {
        Some(digits_val(s))
    } else {
        None
    }
}

/// A prefix of a numeral never denotes more than the whole numeral.
pub proof fn lemma_digits_val_take_le(s: Seq<char>, i: int)
    requires
        0 <= i <= s.len(),
    ensures
        digits_val(s.take(i)) <= digits_val(s),
    decreases s.len() - i,
{
    if i == s.len() {
        assert(s.take(i) =~= s);
    } else {
        assert(s.take(i + 1).drop_last() =~= s.take(i));
        assert(s.take(i + 1).last() == s[i]);
        assert(digits_val(s.take(i + 1)) == digits_val(s.take(i)) * 10 + digit_val(s[i]));
        assert(digits_val(s.take(i)) <= digits_val(s.take(i)) * 10) by (nonlinear_arith);
        lemma_digits_val_take_le(s, i + 1);
    }
}

/// Reads `s` as a decimal `u64`.  Returns the denoted value exactly
/// when `s` is a non-empty, all-digit numeral whose value fits in a
/// `u64`; returns nothing otherwise.
pub fn parse_u64(s: &str) -> (r: Option<u64>)
    ensures
        match r {
            Some(v) => parse_decimal(s@) == Some(v as nat),
            None => parse_decimal(s@) is None || parse_decimal(s@).unwrap() > u64::MAX,
        },
{
    let len = s.unicode_len();
    if len == 0 {
        return None;
    }
    let mut acc: u64 = 0;
    let mut i: usize = 0;
    while i < len
        invariant
            0 <= i <= len,
            len == s@.len(),
            all_digits(s@.take(i as int)),
            acc as nat == digits_val(s@.take(i as int)),
        decreases len - i,
    {
        let c = s.get_char(i);
        if !('0' <= c && c <= '9') {
            assert(!is_digit_char(s@[i as int]));
            return None;
        }
        let d: u64 = (c as u32 - 48) as u64;
        proof {
            assert(s@.take(i as int + 1).drop_last() =~= s@.take(i as int));
            assert(s@.take(i as int + 1).last() == s@[i as int]);
            assert(d as nat == digit_val(s@[i as int]));
        }
        let widened = match acc.checked_mul(10) {
            Some(t) => t,
            None => {
                proof {
                    assert(digits_val(s@.take(i as int + 1)) > u64::MAX) by (nonlinear_arith)
                        requires
                            digits_val(s@.take(i as int + 1)) == acc as nat * 10 + d as nat,
                            acc as nat * 10 > u64::MAX,
                    ;
                    lemma_digits_val_take_le(s@, i as int + 1);
                }
                return None;
            },
        };
        acc = match widened.checked_add(d) {
            Some(t) => t,
            None => {
                proof {
                    lemma_digits_val_take_le(s@, i as int + 1);
                }
                return None;
            },
        };
        i = i + 1;
    }
    proof {
        assert(s@.take(len as int) =~= s@);
    }
    Some(acc)
}

/// An ASCII whitespace character, as they occur in the process tables
/// and status files the library reads.
pub open spec fn is_space_char(c: char) -> bool {
    c == ' ' || c == '\t' || c == '\n' || c == '\r'
}

/// `s` without its leading whitespace.
pub open spec fn trim_front(s: Seq<char>) -> Seq<char>
    decreases s.len(),
{
    if s.len() > 0 && is_space_char(s[0]) {
        trim_front(s.drop_first())
    } else {
        s
    }
}

/// `s` without its trailing whitespace.
pub open spec fn trim_back(s: Seq<char>) -> Seq<char>
    decreases s.len(),
{
    if s.len() > 0 && is_space_char(s.last()) {
        trim_back(s.drop_last())
    } else {
        s
    }
}

/// `s` without leading and trailing whitespace.
pub open spec fn trimmed(s: Seq<char>) -> Seq<char> {
    trim_back(trim_front(s))
}

/// The slice of `s` with leading and trailing whitespace removed.
pub fn trim_spaces<'a>(s: &'a str) -> (r: &'a str)
    ensures
        r@ == trimmed(s@),
{
    let len = s.unicode_len();
    let mut a: usize = 0;
    proof {
        assert(s@.skip(0) =~= s@);
    }
    while a < len && is_space(s.get_char(a))
        invariant
            0 <= a <= len,
            len == s@.len(),
            trim_front(s@) == trim_front(s@.skip(a as int)),
        decreases len - a,
    {
        proof {
            assert(s@.skip(a as int)[0] == s@[a as int]);
            assert(s@.skip(a as int).drop_first() =~= s@.skip(a as int + 1));
        }
        a = a + 1;
    }
    proof {
        if a < len {
            assert(s@.skip(a as int)[0] == s@[a as int]);
        }
        assert(trim_front(s@) =~= s@.subrange(a as int, len as int));
    }
    let mut b: usize = len;
    while b > a && is_space(s.get_char(b - 1))
        invariant
            a <= b <= len,
            len == s@.len(),
            trimmed(s@) == trim_back(s@.subrange(a as int, b as int)),
        decreases b,
    {
        proof {
            assert(s@.subrange(a as int, b as int).last() == s@[b as int - 1]);
            assert(s@.subrange(a as int, b as int).drop_last() =~= s@.subrange(
                a as int,
                b as int - 1,
            ));
        }
        b = b - 1;
    }
    proof {
        if b > a {
            assert(s@.subrange(a as int, b as int).last() == s@[b as int - 1]);
        }
        assert(trimmed(s@) =~= s@.subrange(a as int, b as int));
    }
    s.substring_char(a, b)
}

/// Whether the character at hand is whitespace.
fn is_space(c: char) -> (r: bool)
    ensures
        r == is_space_char(c),
{
    c == ' ' || c == '\t' || c == '\n' || c == '\r'
}

/// `p` occurs at the front of `s`.
pub open spec fn has_prefix(s: Seq<char>, p: Seq<char>) -> bool {
    p.len() <= s.len() && (forall|i: int| 0 <= i < p.len() ==> s[i] == p[i])
}

/// Whether `p` occurs in `s` at position `at`.
fn has_prefix_at(s: &str, p: &str, at: usize) -> (r: bool)
    requires
        at <= s@.len(),
    ensures
        r == has_prefix(s@.skip(at as int), p@),
{
    let slen = s.unicode_len();
    let plen = p.unicode_len();
    if plen > slen - at {
        return false;
    }
    let mut i: usize = 0;
    while i < plen
        invariant
            0 <= i <= plen,
            plen == p@.len(),
            slen == s@.len(),
            at + plen <= slen,
            forall|j: int| 0 <= j < i ==> s@.skip(at as int)[j] == p@[j],
        decreases plen - i,
    {
        if s.get_char(at + i) != p.get_char(i) {
            assert(s@.skip(at as int)[i as int] != p@[i as int]);
            return false;
        }
        assert(s@.skip(at as int)[i as int] == p@[i as int]);
        i = i + 1;
    }
    true
}

/// Whether `s` begins with `p`.
pub fn str_has_prefix(s: &str, p: &str) -> (r: bool)
    ensures
        r == has_prefix(s@, p@),
{
    let r = has_prefix_at(s, p, 0);
    proof {
        assert(s@.skip(0) =~= s@);
    }
    r
}

/// Position `i` starts a line of `s`: it is the start of the text or
/// comes right after a newline.
pub open spec fn line_starts_at(s: Seq<char>, i: int) -> bool {
    i == 0 || s[i - 1] == '\n'
}

/// The first position at or after `from` that starts a line beginning
/// with `p`, if any.
pub open spec fn find_prefixed_line_from(s: Seq<char>, p: Seq<char>, from: nat) -> Option<int>
    decreases s.len() + 1 - from,
{
    if from > s.len() || from + p.len() > s.len() {
        None
    } else if line_starts_at(s, from as int) && has_prefix(s.skip(from as int), p) {
        Some(from as int)
    } else {
        find_prefixed_line_from(s, p, from + 1)
    }
}

/// A found line lies within the text: the prefix fits there, and the
/// position indeed starts a line.
pub proof fn lemma_find_prefixed_line_some(s: Seq<char>, p: Seq<char>, from: nat, i: int)
    requires
        find_prefixed_line_from(s, p, from) == Some(i),
    ensures
        from <= i,
        i + p.len() <= s.len(),
        line_starts_at(s, i),
        has_prefix(s.skip(i), p),
    decreases s.len() + 1 - from,
{
    if !(from > s.len() || from + p.len() > s.len()) {
        if line_starts_at(s, from as int) && has_prefix(s.skip(from as int), p) {
        } else {
            lemma_find_prefixed_line_some(s, p, from + 1, i);
        }
    }
}

/// Finds the first line of `s` that begins with `p` and returns the
/// position of its first character.
pub fn find_prefixed_line(s: &str, p: &str) -> (r: Option<usize>)
    ensures
        match r {
            Some(i) => find_prefixed_line_from(s@, p@, 0) == Some(i as int),
            None => find_prefixed_line_from(s@, p@, 0) is None,
        },
{
    let slen = s.unicode_len();
    let plen = p.unicode_len();
    let mut i: usize = 0;
    loop
        invariant
            0 <= i <= slen + 1,
            slen == s@.len(),
            plen == p@.len(),
            find_prefixed_line_from(s@, p@, 0) == find_prefixed_line_from(s@, p@, i as nat),
        decreases slen + 1 - i,
    {
        if i > slen || plen > slen - i {
            return None;
        }
        let at_line_start = i == 0 || s.get_char(i - 1) == '\n';
        if at_line_start && has_prefix_at(s, p, i) {
            return Some(i);
        }
        proof {
            assert(find_prefixed_line_from(s@, p@, i as nat) == find_prefixed_line_from(
                s@,
                p@,
                i as nat + 1,
            ));
        }
        i = i + 1;
    }
}

/// The first position at or after `from` holding a non-whitespace
/// character (or the end of the text).
pub open spec fn skip_spaces_from(s: Seq<char>, from: nat) -> nat
    decreases s.len() - from when from <= s.len()
{
    if from >= s.len() || !is_space_char(s[from as int]) {
        from
    } else {
        skip_spaces_from(s, from + 1)
    }
}

/// The first position at or after `from` holding whitespace (or the
/// end of the text).
pub open spec fn token_end_from(s: Seq<char>, from: nat) -> nat
    decreases s.len() - from when from <= s.len()
{
    if from >= s.len() || is_space_char(s[from as int]) {
        from
    } else {
        token_end_from(s, from + 1)
    }
}

/// The first whitespace-delimited token at or after `from`: the run of
/// non-whitespace characters after skipping whitespace.  Empty when
/// only whitespace remains.
pub open spec fn token_from(s: Seq<char>, from: nat) -> Seq<char> {
    s.subrange(
        skip_spaces_from(s, from) as int,
        token_end_from(s, skip_spaces_from(s, from)) as int,
    )
}

/// Extracts the first whitespace-delimited token at or after `from`.
pub fn first_token_from<'a>(s: &'a str, from: usize) -> (r: &'a str)
    requires
        from <= s@.len(),
    ensures
        r@ == token_from(s@, from as nat),
{
    let len = s.unicode_len();
    let mut a: usize = from;
    while a < len && is_space(s.get_char(a))
        invariant
            from <= a <= len,
            len == s@.len(),
            skip_spaces_from(s@, from as nat) == skip_spaces_from(s@, a as nat),
        decreases len - a,
    {
        a = a + 1;
    }
    assert(skip_spaces_from(s@, a as nat) == a as nat);
    let mut b: usize = a;
    while b < len && !is_space(s.get_char(b))
        invariant
            a <= b <= len,
            len == s@.len(),
            token_end_from(s@, a as nat) == token_end_from(s@, b as nat),
        decreases len - b,
    {
        b = b + 1;
    }
    assert(token_end_from(s@, b as nat) == b as nat);
    s.substring_char(a, b)
}

/// The first position in `from .. end` holding the character `c`, if
/// any.
pub open spec fn find_char_in(s: Seq<char>, c: char, from: nat, end: nat) -> Option<int>
    decreases end - from when from <= end <= s.len()
{
    if from >= end {
        None
    } else if s[from as int] == c {
        Some(from as int)
    } else {
        find_char_in(s, c, from + 1, end)
    }
}

/// A found character lies within the searched range and is the one
/// sought.
pub proof fn lemma_find_char_in_some(s: Seq<char>, c: char, from: nat, end: nat, p: int)
    requires
        from <= end <= s.len(),
        find_char_in(s, c, from, end) == Some(p),
    ensures
        from <= p < end,
        s[p] == c,
    decreases end - from,
{
    if from < end && s[from as int] != c {
        lemma_find_char_in_some(s, c, from + 1, end, p);
    }
}

/// Finds the first occurrence of `c` within `s[from .. end]`.
pub fn find_char_range(s: &str, c: char, from: usize, end: usize) -> (r: Option<usize>)
    requires
        from <= end,
        end <= s@.len(),
    ensures
        match r {
            Some(p) => find_char_in(s@, c, from as nat, end as nat) == Some(p as int),
            None => find_char_in(s@, c, from as nat, end as nat) is None,
        },
{
    let mut i: usize = from;
    while i < end
        invariant
            from <= i <= end,
            end <= s@.len(),
            find_char_in(s@, c, from as nat, end as nat) == find_char_in(
                s@,
                c,
                i as nat,
                end as nat,
            ),
        decreases end - i,
    {
        if s.get_char(i) == c {
            return Some(i);
        }
        i = i + 1;
    }
    None
}

/// The position right after the `n`-th occurrence of the separator `c`
/// within `s[from .. end]` (so the start of the `n`-th following
/// field), if that many separators exist.
pub open spec fn after_nth_sep(s: Seq<char>, c: char, n: nat, from: nat, end: nat) -> Option<nat>
    decreases n,
{
    if n == 0 {
        Some(from)
    } else {
        match find_char_in(s, c, from, end) {
            Some(p) => after_nth_sep(s, c, (n - 1) as nat, (p + 1) as nat, end),
            None => None,
        }
    }
}

} // verus!

//! Cell text: the characters of a cell and the grammars of its scalar forms.
//!
//! A decimal number is accepted by the grammar
//!
//! ```text
//! Float  ::= Sign? ( 'inf' | 'infinity' | 'nan' | Number )
//! Number ::= ( Digit+ | Digit+ '.' Digit* | Digit* '.' Digit+ ) Exp?
//! Exp    ::= ( 'e' | 'E' ) Sign? Digit+
//! ```
//!
//! with the three words in any mix of upper and lower case. A small unsigned
//! integer is an optional `+` and decimal digits, or `0x`, an optional `+` and
//! hexadecimal digits, and must not exceed 255.

use vstd::prelude::*;

verus! {

/// Whether `c` is one of the decimal digits `0` to `9`.
pub open spec fn is_digit(c: char) -> bool {
    '0' <= c && c <= '9'
}

/// Whether a sign character stands at position `at` of `s`.
pub open spec fn has_sign(s: Seq<char>, at: int) -> bool {
    0 <= at < s.len() && (s[at] == '+' || s[at] == '-')
}

/// The first position at or after `from` that holds no decimal digit.
pub open spec fn digits_end(s: Seq<char>, from: int) -> int
    decreases s.len() - from,
{
    if 0 <= from < s.len() && is_digit(s[from]) {
        digits_end(s, from + 1)
    } else {
        from
    }
}

/// Whether `s` from position `from` to its end spells `lower`, where each
/// letter may also be the one at the same place in `upper`.
pub open spec fn spells(s: Seq<char>, from: int, lower: Seq<char>, upper: Seq<char>) -> bool {
    &&& s.len() - from == lower.len()
    &&& forall|i: int|
        0 <= i < lower.len() ==> s[from + i] == #[trigger] lower[i] || s[from + i] == upper[i]
}

/// Whether an exponent (marker, optional sign, at least one digit) fills
/// `s` from position `at` to its end.
pub open spec fn is_exponent(s: Seq<char>, at: int) -> bool {
    let first = if has_sign(s, at + 1) {
        at + 2
    } else {
        at + 1
    };
    &&& 0 <= at < s.len()
    &&& (s[at] == 'e' || s[at] == 'E')
    &&& first < s.len()
    &&& digits_end(s, first) == s.len()
}

/// Whether an unsigned decimal number fills `s` from position `from` to its
/// end: digits, optionally a point and more digits, at least one digit in
/// all, and optionally an exponent.
pub open spec fn is_number(s: Seq<char>, from: int) -> bool {
    let whole_end = digits_end(s, from);
    let fraction = if whole_end < s.len() && s[whole_end] == '.' {
        whole_end + 1
    } else {
        whole_end
    };
    let fraction_end = digits_end(s, fraction);
    &&& (whole_end - from) + (fraction_end - fraction) > 0
    &&& (fraction_end == s.len() || is_exponent(s, fraction_end))
}

/// Whether `s` is the text of a decimal number.
pub open spec fn is_float_text(s: Seq<char>) -> bool {
    let from = if has_sign(s, 0) {
        1int
    } else {
        0int
    };
    ||| is_number(s, from)
    ||| spells(s, from, "inf"@, "INF"@)
    ||| spells(s, from, "infinity"@, "INFINITY"@)
    ||| spells(s, from, "nan"@, "NAN"@)
}

/// The value of `c` as a digit in base `radix`, for base 10 and base 16.
pub open spec fn digit_value(c: char, radix: int) -> Option<int> {
    if '0' <= c && c <= '9' {
        Some(c as int - '0' as int)
    } else if radix == 16 && 'a' <= c && c <= 'f' {
        Some(c as int - 'a' as int + 10)
    } else if radix == 16 && 'A' <= c && c <= 'F' {
        Some(c as int - 'A' as int + 10)
    } else {
        None
    }
}

/// Whether every character of `s` is a digit in base `radix`.
pub open spec fn all_digits(s: Seq<char>, radix: int) -> bool {
    forall|i: int| 0 <= i < s.len() ==> (#[trigger] digit_value(s[i], radix)) is Some
}

/// The number that the digits `s` write in base `radix`.
pub open spec fn number_of(s: Seq<char>, radix: int) -> int
    decreases s.len(),
{
    if s.len() == 0 {
        0
    } else {
        number_of(s.drop_last(), radix) * radix + digit_value(s.last(), radix).unwrap()
    }
}

/// The small unsigned integer that the digits `s` write in base `radix`: at
/// least one digit, and a value of at most 255.
pub open spec fn digits_uint(s: Seq<char>, radix: int) -> Option<u8> {
    if s.len() > 0 && all_digits(s, radix) && number_of(s, radix) <= 255 {
        Some(number_of(s, radix) as u8)
    } else {
        None
    }
}

/// The small unsigned integer that `s` writes in base `radix`: an optional
/// `+`, then the digits.
pub open spec fn radix_uint(s: Seq<char>, radix: int) -> Option<u8> {
    if s.len() > 0 && s[0] == '+' {
        digits_uint(s.skip(1), radix)
    } else {
        digits_uint(s, radix)
    }
}

/// The small unsigned integer that the cell text `s` writes: hexadecimal
/// after the prefix `0x`, decimal otherwise.
pub open spec fn small_uint_of(s: Seq<char>) -> Option<u8> {
    if s.len() >= 2 && s[0] == '0' && s[1] == 'x' {
        radix_uint(s.skip(2), 16)
    } else {
        radix_uint(s, 10)
    }
}

/// A number written with digits only is at least the number that any
/// prefix of it writes.
pub proof fn lemma_number_of_prefix(s: Seq<char>, radix: int, k: int)
    requires
        radix == 10 || radix == 16,
        all_digits(s, radix),
        0 <= k <= s.len(),
    ensures
        0 <= number_of(s.take(k), radix) <= number_of(s, radix),
    decreases s.len(),
{
    if s.len() == 0 {
        assert(s.take(k) =~= s);
    } else if k == s.len() {
        assert(s.take(k) =~= s);
        lemma_number_of_prefix(s.drop_last(), radix, k - 1);
        assert(digit_value(s.last(), radix) is Some);
    } else {
        lemma_number_of_prefix(s.drop_last(), radix, k);
        assert(s.drop_last().take(k) =~= s.take(k));
        assert(digit_value(s.last(), radix) is Some);
        lemma_number_of_prefix(s.drop_last(), radix, s.len() - 1);
        assert(s.drop_last().take(s.len() - 1) =~= s.drop_last());
        assert(number_of(s.drop_last(), radix) * radix >= number_of(s.drop_last(), radix))
            by (nonlinear_arith)
            requires
                number_of(s.drop_last(), radix) >= 0,
                radix >= 1,
        ;
    }
}

/// The characters of `text`, in order.
pub fn chars_of(text: &str) -> (chars: Vec<char>)
    ensures
        chars@ == text@,
{
    let mut chars: Vec<char> = Vec::new();
    for c in it: text.chars()
        invariant
            it.seq() == text@,
            chars@ == it.seq().take(it.index()),
    {
        chars.push(c);
    }
    chars
}

/// Tells whether `a` and `b` hold the same characters.
pub fn same_chars(a: &Vec<char>, b: &Vec<char>) -> (same: bool)
    ensures
        same == (a@ == b@),
{
    if a.len() != b.len() {
        return false;
    }
    let mut i: usize = 0;
    while i < a.len()
        invariant
            a@.len() == b@.len(),
            0 <= i <= a@.len(),
            forall|j: int| 0 <= j < i ==> a@[j] == b@[j],
        decreases a@.len() - i,
    {
        if a[i] != b[i] {
            return false;
        }
        i = i + 1;
    }
    assert(a@ =~= b@);
    true
}

fn sign_at(text: &Vec<char>, at: usize) -> (b: bool)
    ensures
        b == has_sign(text@, at as int),
{
    at < text.len() && (text[at] == '+' || text[at] == '-')
}

fn scan_digits(text: &Vec<char>, from: usize) -> (end: usize)
    requires
        from <= text@.len(),
    ensures
        end == digits_end(text@, from as int),
        from <= end <= text@.len(),
{
    let mut end: usize = from;
    while end < text.len() && text[end] >= '0' && text[end] <= '9'
        invariant
            from <= end <= text@.len(),
            digits_end(text@, from as int) == digits_end(text@, end as int),
        decreases text@.len() - end,
    {
        end = end + 1;
    }
    end
}

fn exponent_at(text: &Vec<char>, at: usize) -> (b: bool)
    requires
        at < text@.len(),
    ensures
        b == is_exponent(text@, at as int),
{
    let n = text.len();
    if text[at] != 'e' && text[at] != 'E' {
        return false;
    }
    let first: usize = if sign_at(text, at + 1) {
        at + 2
    } else {
        at + 1
    };
    first < n && scan_digits(text, first) == n
}

fn number_at(text: &Vec<char>, from: usize) -> (b: bool)
    requires
        from <= text@.len(),
    ensures
        b == is_number(text@, from as int),
{
    let whole_end = scan_digits(text, from);
    let fraction: usize = if whole_end < text.len() && text[whole_end] == '.' {
        whole_end + 1
    } else {
        whole_end
    };
    let fraction_end = scan_digits(text, fraction);
    if (whole_end - from) + (fraction_end - fraction) == 0 {
        return false;
    }
    fraction_end == text.len() || exponent_at(text, fraction_end)
}

fn word_at(text: &Vec<char>, from: usize, lower: &str, upper: &str) -> (b: bool)
    requires
        from <= text@.len(),
        lower@.len() == upper@.len(),
    ensures
        b == spells(text@, from as int, lower@, upper@),
{
    let low = chars_of(lower);
    let up = chars_of(upper);
    let n = text.len();
    if n - from != low.len() {
        return false;
    }
    let mut i: usize = 0;
    while i < low.len()
        invariant
            n == text@.len(),
            from <= text@.len(),
            text@.len() - from == low@.len(),
            low@.len() == up@.len(),
            low@ == lower@,
            up@ == upper@,
            0 <= i <= low@.len(),
            forall|j: int|
                0 <= j < i ==> text@[from + j] == #[trigger] low@[j] || text@[from + j] == up@[j],
        decreases low@.len() - i,
    {
        if text[from + i] != low[i] && text[from + i] != up[i] {
            return false;
        }
        i = i + 1;
    }
    true
}

/// Tells whether `text` is the text of a decimal number.
pub fn is_float(text: &Vec<char>) -> (b: bool)
    ensures
        b == is_float_text(text@),
{
    let from: usize = if sign_at(text, 0) {
        1
    } else {
        0
    };
    proof {
        reveal_strlit("inf");
        reveal_strlit("INF");
        reveal_strlit("infinity");
        reveal_strlit("INFINITY");
        reveal_strlit("nan");
        reveal_strlit("NAN");
    }
    number_at(text, from) || word_at(text, from, "inf", "INF") || word_at(
        text,
        from,
        "infinity",
        "INFINITY",
    ) || word_at(text, from, "nan", "NAN")
}

fn digit_of(c: char, radix: u32) -> (d: Option<u32>)
    requires
        radix == 10 || radix == 16,
    ensures
        d is Some <==> digit_value(c, radix as int) is Some,
        d is Some ==> d.unwrap() == digit_value(c, radix as int).unwrap() && d.unwrap() < radix,
{
    if c >= '0' && c <= '9' {
        Some(c as u32 - '0' as u32)
    } else if radix == 16 && c >= 'a' && c <= 'f' {
        Some(c as u32 - 'a' as u32 + 10)
    } else if radix == 16 && c >= 'A' && c <= 'F' {
        Some(c as u32 - 'A' as u32 + 10)
    } else {
        None
    }
}

fn parse_digits(text: &Vec<char>, start: usize, radix: u32) -> (r: Option<u8>)
    requires
        start <= text@.len(),
        radix == 10 || radix == 16,
    ensures
        r == digits_uint(text@.skip(start as int), radix as int),
{
    let ghost digits = text@.skip(start as int);
    if start == text.len() {
        return None;
    }
    let mut value: u32 = 0;
    let mut i: usize = start;
    while i < text.len()
        invariant
            start <= i <= text@.len(),
            radix == 10 || radix == 16,
            digits == text@.skip(start as int),
            all_digits(digits.take(i - start), radix as int),
            value == number_of(digits.take(i - start), radix as int),
            value <= 255,
        decreases text@.len() - i,
    {
        let ghost prefix = digits.take(i - start + 1);
        assert(prefix.drop_last() =~= digits.take(i - start));
        assert(prefix.last() == text@[i as int]);
        match digit_of(text[i], radix) {
            None => {
                assert(digit_value(digits[i - start], radix as int) is None);
                return None;
            },
            Some(d) => {
                assert forall|j: int| 0 <= j < prefix.len() implies (#[trigger] digit_value(
                    prefix[j],
                    radix as int,
                )) is Some by {
                    if j < prefix.len() - 1 {
                        assert(prefix[j] == digits.take(i - start)[j]);
                    }
                }
                assert(value * radix + d <= 255 * 16 + 15) by (nonlinear_arith)
                    requires
                        value <= 255,
                        radix <= 16,
                        d <= 15,
                ;
                let next = value * radix + d;
                assert(next == number_of(prefix, radix as int));
                if next > 255 {
                    proof {
                        if all_digits(digits, radix as int) {
                            lemma_number_of_prefix(digits, radix as int, i - start + 1);
                        }
                    }
                    return None;
                }
                value = next;
            },
        }
        i = i + 1;
    }
    assert(digits.take(i - start) =~= digits);
    Some(value as u8)
}

fn parse_radix(text: &Vec<char>, from: usize, radix: u32) -> (r: Option<u8>)
    requires
        from <= text@.len(),
        radix == 10 || radix == 16,
    ensures
        r == radix_uint(text@.skip(from as int), radix as int),
{
    if from < text.len() && text[from] == '+' {
        assert(text@.skip(from as int).skip(1) =~= text@.skip(from + 1));
        parse_digits(text, from + 1, radix)
    } else {
        parse_digits(text, from, radix)
    }
}

/// Reads `text` as a small unsigned integer.
pub fn parse_small_uint(text: &Vec<char>) -> (r: Option<u8>)
    ensures
        r == small_uint_of(text@),
{
    if text.len() >= 2 && text[0] == '0' && text[1] == 'x' {
        parse_radix(text, 2, 16)
    } else {
        let r = parse_radix(text, 0, 10);
        assert(text@.skip(0) =~= text@);
        r
    }
}

} // verus!

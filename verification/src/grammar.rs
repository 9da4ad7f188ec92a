//! The grammar of decimal numbers, stated by the parts of a text, and the
//! proof that the scan of [`crate::text`] accepts exactly the texts of the
//! grammar.
//!
//! ```text
//! Float  ::= Sign? ( 'inf' | 'infinity' | 'nan' | Number )
//! Number ::= ( Digit+ | Digit+ '.' Digit* | Digit* '.' Digit+ ) Exp?
//! Exp    ::= ( 'e' | 'E' ) Sign? Digit+
//! ```

use crate::text::{
    digits_end, has_sign, is_digit, is_exponent, is_float_text, is_number, spells,
};
use vstd::prelude::*;

verus! {

/// Whether every character of `s` is a decimal digit.
pub open spec fn all_decimal(s: Seq<char>) -> bool {
    forall|i: int| 0 <= i < s.len() ==> is_digit(#[trigger] s[i])
}

/// The parts of an exponent: the marker, the sign if there is one, and the
/// digits.
pub struct Exponent {
    pub marker: char,
    pub sign: Option<char>,
    pub digits: Seq<char>,
}

/// The parts of an unsigned number: the digits before the point, whether
/// there is a point, the digits after it, and the exponent if there is one.
pub struct Number {
    pub whole: Seq<char>,
    pub point: bool,
    pub fraction: Seq<char>,
    pub exponent: Option<Exponent>,
}

impl Exponent {
    /// `Exp ::= ( 'e' | 'E' ) Sign? Digit+`
    pub open spec fn well_formed(self) -> bool {
        &&& self.marker == 'e' || self.marker == 'E'
        &&& self.sign matches Some(c) ==> c == '+' || c == '-'
        &&& self.digits.len() > 0
        &&& all_decimal(self.digits)
    }

    /// The text that the parts spell.
    pub open spec fn text(self) -> Seq<char> {
        seq![self.marker] + match self.sign {
            Some(c) => seq![c],
            None => Seq::empty(),
        } + self.digits
    }
}

impl Number {
    /// `Number ::= ( Digit+ | Digit+ '.' Digit* | Digit* '.' Digit+ ) Exp?`
    pub open spec fn well_formed(self) -> bool {
        &&& all_decimal(self.whole)
        &&& all_decimal(self.fraction)
        &&& self.whole.len() + self.fraction.len() > 0
        &&& self.point || self.fraction.len() == 0
        &&& self.exponent matches Some(e) ==> e.well_formed()
    }

    /// The text that the parts spell.
    pub open spec fn text(self) -> Seq<char> {
        self.whole + (if self.point {
            seq!['.']
        } else {
            Seq::empty()
        }) + self.fraction + match self.exponent {
            Some(e) => e.text(),
            None => Seq::empty(),
        }
    }
}

/// A run of digits from `from` to `to` that no digit follows is where the
/// scan from `from` ends.
pub proof fn lemma_digit_run(s: Seq<char>, from: int, to: int)
    requires
        0 <= from <= to <= s.len(),
        forall|i: int| from <= i < to ==> is_digit(#[trigger] s[i]),
        to < s.len() ==> !is_digit(s[to]),
    ensures
        digits_end(s, from) == to,
    decreases to - from,
{
    if from < to {
        lemma_digit_run(s, from + 1, to);
    }
}

/// The scan from `from` ends after a run of digits that no digit follows.
pub proof fn lemma_digits_end(s: Seq<char>, from: int)
    requires
        0 <= from <= s.len(),
    ensures
        from <= digits_end(s, from) <= s.len(),
        forall|i: int| from <= i < digits_end(s, from) ==> is_digit(#[trigger] s[i]),
        digits_end(s, from) < s.len() ==> !is_digit(s[digits_end(s, from)]),
    decreases s.len() - from,
{
    if from < s.len() && is_digit(s[from]) {
        lemma_digits_end(s, from + 1);
    }
}

/// Every text that well-formed parts spell is accepted as a number.
pub proof fn lemma_parts_are_accepted(parts: Number)
    requires
        parts.well_formed(),
    ensures
        is_number(parts.text(), 0),
{
    let s = parts.text();
    let whole_end = parts.whole.len() as int;
    let fraction = if parts.point {
        whole_end + 1
    } else {
        whole_end
    };
    let fraction_end = fraction + parts.fraction.len();
    assert forall|i: int| 0 <= i < whole_end implies is_digit(#[trigger] s[i]) by {
        assert(s[i] == parts.whole[i]);
    }
    assert forall|i: int| fraction <= i < fraction_end implies is_digit(#[trigger] s[i]) by {
        assert(s[i] == parts.fraction[i - fraction]);
    }
    if parts.point {
        assert(s[whole_end] == '.');
    }
    match parts.exponent {
        Some(e) => {
            let first = match e.sign {
                Some(_) => fraction_end + 2,
                None => fraction_end + 1,
            };
            assert(s[fraction_end] == e.marker);
            assert(s.len() == first + e.digits.len());
            match e.sign {
                Some(c) => {
                    assert(s[fraction_end + 1] == c);
                },
                None => {
                    assert(s[fraction_end + 1] == e.digits[0]);
                },
            }
            assert forall|i: int| first <= i < s.len() implies is_digit(#[trigger] s[i]) by {
                assert(s[i] == e.digits[i - first]);
            }
            lemma_digit_run(s, first, s.len() as int);
        },
        None => {
            assert(s.len() == fraction_end);
        },
    }
    lemma_digit_run(s, fraction, fraction_end);
    lemma_digit_run(s, 0, whole_end);
}

/// Every text that is accepted as a number is spelled by well-formed parts:
/// the ones that this proof returns.
pub proof fn lemma_accepted_has_parts(s: Seq<char>) -> (parts: Number)
    requires
        is_number(s, 0),
    ensures
        parts.well_formed(),
        parts.text() == s,
{
    lemma_digits_end(s, 0);
    let whole_end = digits_end(s, 0);
    let point = whole_end < s.len() && s[whole_end] == '.';
    let fraction = if point {
        whole_end + 1
    } else {
        whole_end
    };
    lemma_digits_end(s, fraction);
    let fraction_end = digits_end(s, fraction);
    let exponent = if fraction_end == s.len() {
        None
    } else {
        let signed = has_sign(s, fraction_end + 1);
        let first = if signed {
            fraction_end + 2
        } else {
            fraction_end + 1
        };
        lemma_digits_end(s, first);
        Some(
            Exponent {
                marker: s[fraction_end],
                sign: if signed {
                    Some(s[fraction_end + 1])
                } else {
                    None
                },
                digits: s.subrange(first, s.len() as int),
            },
        )
    };
    let parts = Number {
        whole: s.subrange(0, whole_end),
        point,
        fraction: s.subrange(fraction, fraction_end),
        exponent,
    };
    assert(parts.text() =~= s);
    parts
}

/// The scan of a text from `from` is the scan of the text without its first
/// `from` characters.
pub proof fn lemma_digits_end_skip(s: Seq<char>, from: int, at: int)
    requires
        0 <= from <= s.len(),
        0 <= at,
    ensures
        digits_end(s, from + at) == digits_end(s.skip(from), at) + from,
    decreases s.len() - from - at,
{
    let rest = s.skip(from);
    if from + at < s.len() {
        assert(rest[at] == s[from + at]);
        if is_digit(s[from + at]) {
            lemma_digits_end_skip(s, from, at + 1);
        }
    }
}

/// A number fills a text from `from` on exactly when it fills the text
/// without its first `from` characters.
pub proof fn lemma_number_skip(s: Seq<char>, from: int)
    requires
        0 <= from <= s.len(),
    ensures
        is_number(s, from) == is_number(s.skip(from), 0),
{
    let rest = s.skip(from);
    lemma_digits_end_skip(s, from, 0);
    lemma_digits_end(s, from);
    let whole_end = digits_end(rest, 0);
    if whole_end < rest.len() {
        assert(rest[whole_end] == s[from + whole_end]);
    }
    let fraction = if whole_end < rest.len() && rest[whole_end] == '.' {
        whole_end + 1
    } else {
        whole_end
    };
    lemma_digits_end_skip(s, from, fraction);
    lemma_digits_end(s, from + fraction);
    let fraction_end = digits_end(rest, fraction);
    if fraction_end < rest.len() {
        assert(rest[fraction_end] == s[from + fraction_end]);
        if fraction_end + 1 < rest.len() {
            assert(rest[fraction_end + 1] == s[from + fraction_end + 1]);
        }
        let first = if has_sign(rest, fraction_end + 1) {
            fraction_end + 2
        } else {
            fraction_end + 1
        };
        assert(has_sign(rest, fraction_end + 1) == has_sign(s, from + fraction_end + 1));
        if first <= rest.len() {
            lemma_digits_end_skip(s, from, first);
        }
        assert(is_exponent(rest, fraction_end) == is_exponent(s, from + fraction_end));
    }
}

/// The text `s` without the one sign that may lead it.
pub open spec fn unsigned(s: Seq<char>) -> Seq<char> {
    if has_sign(s, 0) {
        s.skip(1)
    } else {
        s
    }
}

/// A text writes a decimal number exactly when, after the one sign that may
/// lead it, it is a number of the grammar or spells one of the three words,
/// in any mix of upper and lower case.
pub proof fn lemma_float_text(s: Seq<char>)
    ensures
        is_float_text(s) <==> {
            ||| is_number(unsigned(s), 0)
            ||| spells(unsigned(s), 0, "inf"@, "INF"@)
            ||| spells(unsigned(s), 0, "infinity"@, "INFINITY"@)
            ||| spells(unsigned(s), 0, "nan"@, "NAN"@)
        },
{
    if has_sign(s, 0) {
        lemma_number_skip(s, 1);
        lemma_spells_skip(s, "inf"@, "INF"@);
        lemma_spells_skip(s, "infinity"@, "INFINITY"@);
        lemma_spells_skip(s, "nan"@, "NAN"@);
    }
}

/// A text spells a word from its second character on exactly when the text
/// without its first character spells the word.
pub proof fn lemma_spells_skip(s: Seq<char>, lower: Seq<char>, upper: Seq<char>)
    requires
        s.len() >= 1,
    ensures
        spells(s, 1, lower, upper) == spells(s.skip(1), 0, lower, upper),
{
    let rest = s.skip(1);
    if spells(s, 1, lower, upper) {
        assert forall|i: int| 0 <= i < lower.len() implies rest[0 + i] == #[trigger] lower[i]
            || rest[0 + i] == upper[i] by {
            assert(rest[i] == s[1 + i]);
        }
    }
    if spells(rest, 0, lower, upper) {
        assert forall|i: int| 0 <= i < lower.len() implies s[1 + i] == #[trigger] lower[i] || s[1
            + i] == upper[i] by {
            assert(rest[0 + i] == s[1 + i]);
        }
    }
}

} // verus!

//! The rating of a film. The page gives it as a word; the library holds it
//! as the text that it read, once that text is known to be the text of a
//! floating-point value: a decimal number, an infinity or not-a-number.

use vstd::prelude::*;
use vstd::string::StringExecFns;
use crate::text::to_chars;

verus! {

/// A rating: the text of a floating-point value, as a page gave it. A
/// `Rating` is made by `Rating::parse` alone, so its text is always such a
/// text. Two ratings are equal where their texts are.
#[derive(Debug, PartialEq, Eq)]
pub struct Rating {
    text: String,
}

impl View for Rating {
    type V = Seq<char>;

    closed spec fn view(&self) -> Seq<char> {
        self.text@
    }
}

impl DeepView for Rating {
    type V = Seq<char>;

    open spec fn deep_view(&self) -> Seq<char> {
        self@
    }
}

impl Rating {
    /// The text of a rating is the text of a floating-point value.
    #[verifier::type_invariant]
    spec fn holds_number_text(&self) -> bool {
        is_float_literal(self.text@)
    }

    /// The rating that `token` stands for: `Some` exactly where `token` is
    /// the text of a floating-point value, and then with that text.
    pub fn parse(token: &str) -> (rating: Option<Rating>)
        ensures
            rating is Some == is_float_literal(token@),
            rating matches Some(r) ==> r@ == token@,
    {
        if is_number_text(token) {
            Some(Rating { text: String::from_str(token) })
        } else {
            None
        }
    }

    /// The text of the rating, which is the text of a floating-point value.
    pub fn as_str(&self) -> (text: &str)
        ensures
            text@ == self@,
            is_float_literal(text@),
    {
        proof {
            use_type_invariant(self);
        }
        self.text.as_str()
    }
}

/// A decimal digit.
pub open spec fn is_digit(c: char) -> bool {
    '0' <= c <= '9'
}

/// A plus or a minus sign.
pub open spec fn is_sign(c: char) -> bool {
    c == '+' || c == '-'
}

/// Every character of `s` is a decimal digit.
pub open spec fn is_digits(s: Seq<char>) -> bool {
    forall|i: int| 0 <= i < s.len() ==> is_digit(#[trigger] s[i])
}

/// Digits, or digits with one point before, among or after them; at least
/// one digit in all.
pub open spec fn is_mantissa(s: Seq<char>) -> bool {
    ||| s.len() > 0 && is_digits(s)
    ||| exists|dot: int|
        0 <= dot < s.len() && s.len() > 1 && s[dot] == '.' && is_digits(#[trigger] s.take(dot))
            && is_digits(s.skip(dot + 1))
}

/// The letter `e` in either case, then an optional sign, then at least one
/// digit.
pub open spec fn is_exponent(s: Seq<char>) -> bool {
    &&& s.len() > 0
    &&& s[0] == 'e' || s[0] == 'E'
    &&& {
        let digits = if s.len() > 1 && is_sign(s[1]) {
            s.skip(2)
        } else {
            s.skip(1)
        };
        digits.len() > 0 && is_digits(digits)
    }
}

/// A mantissa, alone or followed by an exponent.
pub open spec fn is_number(s: Seq<char>) -> bool {
    exists|cut: int|
        0 <= cut <= s.len() && is_mantissa(#[trigger] s.take(cut)) && (cut == s.len()
            || is_exponent(s.skip(cut)))
}

/// `c` is the lower-case letter `letter` or the capital of it.
pub open spec fn is_letter(c: char, letter: char) -> bool {
    c == letter || c as u32 + 32 == letter as u32
}

/// `s` spells `word`, a word of lower-case letters, in any mix of cases.
pub open spec fn spells(s: Seq<char>, word: Seq<char>) -> bool {
    &&& s.len() == word.len()
    &&& forall|i: int| 0 <= i < s.len() ==> is_letter(#[trigger] s[i], word[i])
}

/// `s` without the sign that it may begin with.
pub open spec fn unsigned_part(s: Seq<char>) -> Seq<char> {
    if s.len() > 0 && is_sign(s[0]) {
        s.skip(1)
    } else {
        s
    }
}

/// The texts that stand for a floating-point value: an optional sign, and
/// then a decimal number or one of the words `inf`, `infinity` and `nan` in
/// any mix of cases. Nothing may stand before or after.
pub open spec fn is_float_literal(s: Seq<char>) -> bool {
    let body = unsigned_part(s);
    ||| is_number(body)
    ||| spells(body, seq!['i', 'n', 'f'])
    ||| spells(body, seq!['i', 'n', 'f', 'i', 'n', 'i', 't', 'y'])
    ||| spells(body, seq!['n', 'a', 'n'])
}

/// Whether `c` is a decimal digit.
fn char_is_digit(c: char) -> (digit: bool)
    ensures
        digit == is_digit(c),
{
    '0' <= c && c <= '9'
}

/// Whether `c` is a sign.
fn char_is_sign(c: char) -> (sign: bool)
    ensures
        sign == is_sign(c),
{
    c == '+' || c == '-'
}

/// Whether `c` is the lower-case letter `letter` or the capital of it.
fn char_is_letter(c: char, letter: char) -> (same: bool)
    ensures
        same == is_letter(c, letter),
{
    c == letter || c as u32 + 32 == letter as u32
}

/// The end of the run of digits of `s` that begins at `from`.
fn digits_end(s: &Vec<char>, from: usize) -> (end: usize)
    requires
        from <= s.len(),
    ensures
        from <= end <= s.len(),
        forall|i: int| from <= i < end ==> is_digit(s@[i]),
        end < s.len() ==> !is_digit(s@[end as int]),
{
    let mut end: usize = from;
    while end < s.len() && char_is_digit(s[end])
        invariant
            from <= end <= s.len(),
            forall|i: int| from <= i < end ==> is_digit(s@[i]),
        decreases s.len() - end,
    {
        end += 1;
    }
    end
}

/// Whether `s` spells `word` in any mix of cases.
fn spells_word(s: &Vec<char>, word: &Vec<char>) -> (same: bool)
    ensures
        same == spells(s@, word@),
{
    if s.len() != word.len() {
        return false;
    }
    let mut i: usize = 0;
    while i < s.len()
        invariant
            i <= s.len(),
            s.len() == word.len(),
            forall|j: int| 0 <= j < i ==> is_letter(#[trigger] s@[j], word@[j]),
        decreases s.len() - i,
    {
        if !char_is_letter(s[i], word[i]) {
            return false;
        }
        i += 1;
    }
    true
}

/// In a number, the mantissa ends where the scan of digits, point and digits
/// ends: no other cut of `s` has a mantissa before it and nothing or an
/// exponent after it.
proof fn lemma_mantissa_cut(s: Seq<char>, cut: int, whole: int, end: int)
    requires
        0 <= cut <= s.len(),
        is_mantissa(s.take(cut)),
        cut == s.len() || is_exponent(s.skip(cut)),
        0 <= whole <= end <= s.len(),
        forall|i: int| 0 <= i < whole ==> is_digit(s[i]),
        whole < s.len() ==> !is_digit(s[whole]),
        whole < s.len() && s[whole] == '.' ==> {
            &&& whole < end
            &&& forall|i: int| whole < i < end ==> is_digit(s[i])
            &&& end < s.len() ==> !is_digit(s[end])
        },
        !(whole < s.len() && s[whole] == '.') ==> end == whole,
    ensures
        cut == end,
        whole < s.len() && s[whole] == '.' ==> end - whole > 1 || whole > 0,
        !(whole < s.len() && s[whole] == '.') ==> whole > 0,
{
    let m = s.take(cut);
    if cut < s.len() {
        assert(s.skip(cut)[0] == s[cut]);
        assert(!is_digit(s[cut]) && s[cut] != '.');
    }
    if m.len() > 0 && is_digits(m) {
        assert forall|i: int| 0 <= i < cut implies is_digit(s[i]) by {
            assert(m[i] == s[i]);
        }
        if whole < cut {
            assert(is_digit(s[whole]));
        }
    } else {
        let dot = choose|dot: int|
            0 <= dot < m.len() && m.len() > 1 && m[dot] == '.' && is_digits(#[trigger] m.take(dot))
                && is_digits(m.skip(dot + 1));
        assert(m[dot] == s[dot]);
        assert forall|i: int| 0 <= i < dot implies is_digit(s[i]) by {
            assert(m.take(dot)[i] == s[i]);
        }
        assert forall|i: int| dot < i < cut implies is_digit(s[i]) by {
            assert(m.skip(dot + 1)[i - dot - 1] == s[i]);
        }
        if whole < dot {
            assert(is_digit(s[whole]));
        }
        if dot < whole {
            assert(is_digit(s[dot]));
        }
        assert(whole == dot);
        if end < cut {
            assert(is_digit(s[end]));
        }
        if cut < end {
            assert(is_digit(s[cut]));
        }
    }
}

/// Whether `s` is a decimal number: a mantissa, alone or with an exponent.
fn is_decimal_number(s: &Vec<char>) -> (number: bool)
    ensures
        number == is_number(s@),
{
    let n: usize = s.len();
    let whole: usize = digits_end(s, 0);
    let pointed: bool = whole < n && s[whole] == '.';
    let end: usize = if pointed {
        digits_end(s, whole + 1)
    } else {
        whole
    };
    proof {
        if is_number(s@) {
            let cut = choose|cut: int|
                0 <= cut <= s@.len() && is_mantissa(#[trigger] s@.take(cut)) && (cut == s@.len()
                    || is_exponent(s@.skip(cut)));
            lemma_mantissa_cut(s@, cut, whole as int, end as int);
        }
    }
    let has_digit: bool = if pointed {
        end - whole > 1 || whole > 0
    } else {
        whole > 0
    };
    if !has_digit {
        return false;
    }
    proof {
        let m = s@.take(end as int);
        if pointed {
            assert(m[whole as int] == '.');
            assert(is_digits(m.take(whole as int)));
            assert(is_digits(m.skip(whole + 1)));
        } else {
            assert(is_digits(m));
        }
        assert(is_mantissa(m));
    }
    if end == n {
        return true;
    }
    let mark: char = s[end];
    if !(mark == 'e' || mark == 'E') {
        assert(s@.skip(end as int)[0] == mark);
        return false;
    }
    let signed: bool = end + 1 < n && char_is_sign(s[end + 1]);
    let first: usize = if signed {
        end + 2
    } else {
        end + 1
    };
    let last: usize = digits_end(s, first);
    proof {
        let e = s@.skip(end as int);
        assert(e[0] == mark);
        if e.len() > 1 {
            assert(e[1] == s@[end + 1]);
        }
        let digits = if e.len() > 1 && is_sign(e[1]) {
            e.skip(2)
        } else {
            e.skip(1)
        };
        assert(digits =~= s@.skip(first as int));
        if last == n {
            assert(is_digits(digits));
        } else {
            assert(digits[last - first] == s@[last as int]);
        }
    }
    first < n && last == n
}

/// Whether `token` is the text of a floating-point value, as
/// `is_float_literal` defines it.
pub fn is_number_text(token: &str) -> (number: bool)
    ensures
        number == is_float_literal(token@),
{
    let mut body = to_chars(token);
    if body.len() > 0 && char_is_sign(body[0]) {
        body.remove(0);
        assert(body@ =~= token@.skip(1));
    }
    assert(body@ == unsigned_part(token@));
    if is_decimal_number(&body) {
        return true;
    }
    let inf: Vec<char> = vec!['i', 'n', 'f'];
    let infinity: Vec<char> = vec!['i', 'n', 'f', 'i', 'n', 'i', 't', 'y'];
    let nan: Vec<char> = vec!['n', 'a', 'n'];
    assert(inf@ =~= seq!['i', 'n', 'f']);
    assert(infinity@ =~= seq!['i', 'n', 'f', 'i', 'n', 'i', 't', 'y']);
    assert(nan@ =~= seq!['n', 'a', 'n']);
    spells_word(&body, &inf) || spells_word(&body, &infinity) || spells_word(&body, &nan)
}

} // verus!

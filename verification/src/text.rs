//! Texts as sequences of characters: the lowercase of a text, the
//! characters of a `str`, one text inside another, and the first word of a
//! text.

use vstd::prelude::*;
use vstd::string::StrSliceExecFns;

verus! {

/// One of the capital letters `A` to `Z`.
pub open spec fn is_ascii_capital(c: char) -> bool {
    'A' <= c <= 'Z'
}

/// The small letter for a capital `A` to `Z`; any other character itself.
pub open spec fn ascii_lower(c: char) -> char {
    if is_ascii_capital(c) {
        (c as u32 + 32) as char
    } else {
        c
    }
}

/// Every character of `s` is an ASCII character.
pub open spec fn is_ascii_text(s: Seq<char>) -> bool {
    forall|i: int| 0 <= i < s.len() ==> (#[trigger] s[i]) as u32 <= 0x7F
}

/// `s` with each capital `A` to `Z` replaced by its small letter.
pub open spec fn ascii_lowercase(s: Seq<char>) -> Seq<char> {
    s.map_values(|c: char| ascii_lower(c))
}

/// The lowercase equivalent of a text, as `str::to_lowercase` gives it.
pub uninterp spec fn lowercase_of(s: Seq<char>) -> Seq<char>;

/// `str::to_lowercase`, which maps each character as Unicode's lowercase
/// mapping says. The contract names the result, which depends on the text
/// alone, and states two things of it: it holds none of the capitals `A` to
/// `Z`, and where the text is all ASCII it is the text with each of those
/// capitals replaced by its small letter.
pub assume_specification[ str::to_lowercase ](s: &str) -> (lower: String)
    ensures
        lower@ == lowercase_of(s@),
        forall|i: int| 0 <= i < lower@.len() ==> !is_ascii_capital(#[trigger] lower@[i]),
        is_ascii_text(s@) ==> lower@ == ascii_lowercase(s@),
;

/// `String::push`, which appends one character.
pub assume_specification[ String::push ](s: &mut String, c: char)
    ensures
        final(s)@ == old(s)@.push(c),
;

/// The characters of `s`, in order.
pub fn to_chars(s: &str) -> (chars: Vec<char>)
    ensures
        chars@ == s@,
{
    let mut chars: Vec<char> = Vec::new();
    for c in it: s.chars()
        invariant
            it.seq() == s@,
            chars@ == s@.take(it.index()),
    {
        chars.push(c);
    }
    assert(s@.take(s@.len() as int) == s@);
    chars
}

/// `needle` stands in `haystack` from position `at` on.
pub open spec fn occurs_at(haystack: Seq<char>, needle: Seq<char>, at: int) -> bool {
    &&& 0 <= at
    &&& at + needle.len() <= haystack.len()
    &&& haystack.subrange(at, at + needle.len()) == needle
}

/// `needle` stands somewhere in `haystack`, as one unbroken run.
pub open spec fn contains_text(haystack: Seq<char>, needle: Seq<char>) -> bool {
    exists|at: int| occurs_at(haystack, needle, at)
}

/// Whether `needle` stands in `haystack` from position `at` on.
fn matches_at(haystack: &Vec<char>, needle: &Vec<char>, at: usize) -> (found: bool)
    requires
        at + needle.len() <= haystack.len(),
    ensures
        found == occurs_at(haystack@, needle@, at as int),
{
    let mut k: usize = 0;
    while k < needle.len()
        invariant
            k <= needle.len(),
            at + needle.len() <= haystack.len(),
            forall|j: int| 0 <= j < k ==> haystack@[at + j] == needle@[j],
        decreases needle.len() - k,
    {
        if haystack[at + k] != needle[k] {
            assert(haystack@.subrange(at as int, at + needle.len())[k as int] != needle@[k as int]);
            return false;
        }
        k += 1;
    }
    assert(haystack@.subrange(at as int, at + needle.len()) =~= needle@);
    true
}

/// Whether `needle` stands somewhere in `haystack`. An empty `needle` stands
/// in every text.
pub fn contains(haystack: &str, needle: &str) -> (found: bool)
    ensures
        found == contains_text(haystack@, needle@),
{
    let hay = to_chars(haystack);
    let pin = to_chars(needle);
    if pin.len() > hay.len() {
        return false;
    }
    let last: usize = hay.len() - pin.len();
    let mut at: usize = 0;
    while at < last
        invariant
            last == hay.len() - pin.len(),
            at <= last,
            hay@ == haystack@,
            pin@ == needle@,
            forall|k: int| 0 <= k < at ==> !occurs_at(hay@, pin@, k),
        decreases last - at,
    {
        if matches_at(&hay, &pin, at) {
            return true;
        }
        at += 1;
    }
    matches_at(&hay, &pin, last)
}

/// The characters with the Unicode property `White_Space`.
pub open spec fn is_whitespace(c: char) -> bool {
    let n = c as u32;
    ||| 0x09 <= n <= 0x0D
    ||| n == 0x20
    ||| n == 0x85
    ||| n == 0xA0
    ||| n == 0x1680
    ||| 0x2000 <= n <= 0x200A
    ||| n == 0x2028
    ||| n == 0x2029
    ||| n == 0x202F
    ||| n == 0x205F
    ||| n == 0x3000
}

/// The position of the first character of `s` at or after `from` that is no
/// white space, or `s.len()` where there is none.
pub open spec fn token_start(s: Seq<char>, from: int) -> int
    decreases s.len() - from,
{
    if 0 <= from < s.len() && is_whitespace(s[from]) {
        token_start(s, from + 1)
    } else {
        from
    }
}

/// The position of the first white space of `s` at or after `from`, or
/// `s.len()` where there is none.
pub open spec fn token_end(s: Seq<char>, from: int) -> int
    decreases s.len() - from,
{
    if 0 <= from < s.len() && !is_whitespace(s[from]) {
        token_end(s, from + 1)
    } else {
        from
    }
}

/// The first word of `s`: its longest run of characters that are no white
/// space and that only white space precedes. `None` where `s` is empty or all
/// white space.
pub open spec fn first_token(s: Seq<char>) -> Option<Seq<char>> {
    let start = token_start(s, 0);
    if start < s.len() {
        Some(s.subrange(start, token_end(s, start)))
    } else {
        None
    }
}

/// What `first_token` picks: where `s` has no word, `s` is all white space;
/// else the word is a run of `s` without white space and not empty, only
/// white space stands before it, and white space or nothing follows it.
pub proof fn lemma_first_token(s: Seq<char>)
    ensures
        first_token(s) is None ==> forall|i: int| 0 <= i < s.len() ==> is_whitespace(s[i]),
        first_token(s) matches Some(token) ==> {
            let start = token_start(s, 0);
            let end = token_end(s, start);
            &&& 0 <= start < end <= s.len()
            &&& token == s.subrange(start, end)
            &&& forall|i: int| 0 <= i < start ==> is_whitespace(s[i])
            &&& forall|i: int| start <= i < end ==> !is_whitespace(s[i])
            &&& end < s.len() ==> is_whitespace(s[end])
        },
{
    lemma_token_start(s, 0);
    lemma_token_end(s, token_start(s, 0));
}

/// From `from` up to `token_start(s, from)` all is white space, and what
/// stands there, if anything, is none.
proof fn lemma_token_start(s: Seq<char>, from: int)
    requires
        0 <= from <= s.len(),
    ensures
        from <= token_start(s, from) <= s.len(),
        forall|i: int| from <= i < token_start(s, from) ==> is_whitespace(s[i]),
        token_start(s, from) < s.len() ==> !is_whitespace(s[token_start(s, from)]),
    decreases s.len() - from,
{
    if from < s.len() && is_whitespace(s[from]) {
        lemma_token_start(s, from + 1);
    }
}

/// From `from` up to `token_end(s, from)` nothing is white space, and what
/// stands there, if anything, is.
proof fn lemma_token_end(s: Seq<char>, from: int)
    requires
        0 <= from <= s.len(),
    ensures
        from <= token_end(s, from) <= s.len(),
        forall|i: int| from <= i < token_end(s, from) ==> !is_whitespace(s[i]),
        token_end(s, from) < s.len() ==> is_whitespace(s[token_end(s, from)]),
    decreases s.len() - from,
{
    if from < s.len() && !is_whitespace(s[from]) {
        lemma_token_end(s, from + 1);
    }
}

/// Whether `c` has the Unicode property `White_Space`.
pub fn char_is_whitespace(c: char) -> (white: bool)
    ensures
        white == is_whitespace(c),
{
    let n: u32 = c as u32;
    (0x09 <= n && n <= 0x0D) || n == 0x20 || n == 0x85 || n == 0xA0 || n == 0x1680 || (0x2000 <= n
        && n <= 0x200A) || n == 0x2028 || n == 0x2029 || n == 0x202F || n == 0x205F || n == 0x3000
}

/// The first word of `content`, as `first_token` defines it.
pub fn first_word(content: &str) -> (word: Option<&str>)
    ensures
        match word {
            Some(w) => first_token(content@) == Some(w@),
            None => first_token(content@) is None,
        },
{
    let chars = to_chars(content);
    let n: usize = chars.len();
    let mut start: usize = 0;
    while start < n && char_is_whitespace(chars[start])
        invariant
            n == chars.len(),
            start <= n,
            token_start(chars@, 0) == token_start(chars@, start as int),
        decreases n - start,
    {
        start += 1;
    }
    if start == n {
        return None;
    }
    let mut end: usize = start;
    while end < n && !char_is_whitespace(chars[end])
        invariant
            n == chars.len(),
            start <= end <= n,
            token_end(chars@, start as int) == token_end(chars@, end as int),
        decreases n - end,
    {
        end += 1;
    }
    Some(content.substring_char(start, end))
}

} // verus!

//! Searching and reading text, character by character.

use vstd::prelude::*;

verus! {

/// The characters of `text`, in order.
pub fn chars_of(text: &str) -> (chars: Vec<char>)
    ensures
        chars@ == text@,
{
    let mut chars: Vec<char> = Vec::new();
    for c in it: text.chars()
        invariant
            chars@ == it.seq().take(it.index() as int),
            it.seq() == text@,
    {
        chars.push(c);
    }
    chars
}

/// Whether two runs of characters are the same.
pub fn same_text(a: &[char], b: &[char]) -> (same: bool)
    ensures
        same == (a@ == b@),
{
    if a.len() != b.len() {
        return false;
    }
    let mut i: usize = 0;
    while i < a.len()
        invariant
            a.len() == b.len(),
            i <= a.len(),
            a@.subrange(0, i as int) == b@.subrange(0, i as int),
        decreases a.len() - i,
    {
        if a[i] != b[i] {
            return false;
        }
        assert(a@.subrange(0, i + 1) == a@.subrange(0, i as int).push(a@[i as int]));
        assert(b@.subrange(0, i + 1) == b@.subrange(0, i as int).push(b@[i as int]));
        i = i + 1;
    }
    assert(a@ == a@.subrange(0, a.len() as int));
    assert(b@ == b@.subrange(0, b.len() as int));
    true
}

/// An ASCII capital as its small letter, any other character as itself.
pub open spec fn ascii_lower(c: char) -> char {
    if 'A' <= c && c <= 'Z' {
        ((c as u32) + 32) as char
    } else {
        c
    }
}

/// Whether two texts are the same but for the case of their ASCII letters.
pub open spec fn same_ignoring_ascii_case(a: Seq<char>, b: Seq<char>) -> bool {
    &&& a.len() == b.len()
    &&& forall|i: int| 0 <= i < a.len() ==> ascii_lower(#[trigger] a[i]) == ascii_lower(b[i])
}

/// Folds an ASCII capital to its small letter.
pub fn to_ascii_lower(c: char) -> (folded: char)
    ensures
        folded == ascii_lower(c),
{
    if 'A' <= c && c <= 'Z' {
        ((c as u8) + 32) as char
    } else {
        c
    }
}

/// Compares two runs of characters without regard to the case of ASCII letters.
pub fn matches_ignoring_ascii_case(a: &[char], b: &[char]) -> (same: bool)
    ensures
        same == same_ignoring_ascii_case(a@, b@),
{
    if a.len() != b.len() {
        return false;
    }
    let mut i: usize = 0;
    while i < a.len()
        invariant
            a.len() == b.len(),
            i <= a.len(),
            forall|k: int| 0 <= k < i ==> ascii_lower(#[trigger] a@[k]) == ascii_lower(b@[k]),
        decreases a.len() - i,
    {
        if to_ascii_lower(a[i]) != to_ascii_lower(b[i]) {
            return false;
        }
        i = i + 1;
    }
    true
}

/// Whether `pattern` stands in `text` at index `at`.
pub open spec fn occurs_at(text: Seq<char>, pattern: Seq<char>, at: int) -> bool {
    &&& 0 <= at
    &&& at + pattern.len() <= text.len()
    &&& text.subrange(at, at + pattern.len()) == pattern
}

/// The least index from `start` on at which `pattern` stands in `text`.
pub open spec fn first_occurrence_from(text: Seq<char>, pattern: Seq<char>, start: int) -> Option<
    int,
>
    decreases text.len() + 1 - start,
{
    if start < 0 || start + pattern.len() > text.len() {
        None
    } else if occurs_at(text, pattern, start) {
        Some(start)
    } else {
        first_occurrence_from(text, pattern, start + 1)
    }
}

/// The least index at which `pattern` stands in `text`.
pub open spec fn first_occurrence(text: Seq<char>, pattern: Seq<char>) -> Option<int> {
    first_occurrence_from(text, pattern, 0)
}

/// A search from `start` finds an occurrence that no other from `start` on precedes,
/// and fails only where there is none.
pub proof fn lemma_first_occurrence_from(text: Seq<char>, pattern: Seq<char>, start: int)
    requires
        0 <= start,
    ensures
        match first_occurrence_from(text, pattern, start) {
            Some(at) => {
                &&& start <= at
                &&& occurs_at(text, pattern, at)
                &&& forall|j: int| start <= j < at ==> !occurs_at(text, pattern, j)
            },
            None => forall|j: int| start <= j ==> !occurs_at(text, pattern, j),
        },
    decreases text.len() + 1 - start,
{
    if start + pattern.len() > text.len() {
    } else if occurs_at(text, pattern, start) {
    } else {
        lemma_first_occurrence_from(text, pattern, start + 1);
    }
}

/// A search finds the first occurrence, and fails only where there is none.
pub proof fn lemma_first_occurrence(text: Seq<char>, pattern: Seq<char>)
    ensures
        match first_occurrence(text, pattern) {
            Some(at) => {
                &&& occurs_at(text, pattern, at)
                &&& forall|j: int| 0 <= j < at ==> !occurs_at(text, pattern, j)
            },
            None => forall|j: int| !occurs_at(text, pattern, j),
        },
{
    lemma_first_occurrence_from(text, pattern, 0);
}

/// Whether `pattern` stands in `text` at `at`.
fn stands_at(text: &[char], pattern: &[char], at: usize) -> (stands: bool)
    requires
        at + pattern.len() <= text.len(),
    ensures
        stands == occurs_at(text@, pattern@, at as int),
{
    let mut k: usize = 0;
    while k < pattern.len()
        invariant
            k <= pattern.len(),
            at + pattern.len() <= text.len(),
            text@.subrange(at as int, at + k) == pattern@.subrange(0, k as int),
        decreases pattern.len() - k,
    {
        if text[at + k] != pattern[k] {
            assert(text@.subrange(at as int, at + pattern.len())[k as int] == text@[at + k]);
            return false;
        }
        assert(text@.subrange(at as int, at + k + 1) == text@.subrange(at as int, at + k).push(
            text@[at + k],
        ));
        assert(pattern@.subrange(0, k + 1) == pattern@.subrange(0, k as int).push(
            pattern@[k as int],
        ));
        k = k + 1;
    }
    assert(pattern@ == pattern@.subrange(0, pattern.len() as int));
    true
}

/// Finds the first occurrence of `pattern` in `text`.
pub fn find(text: &[char], pattern: &[char]) -> (found: Option<usize>)
    ensures
        match found {
            Some(at) => first_occurrence(text@, pattern@) == Some(at as int),
            None => first_occurrence(text@, pattern@) is None,
        },
{
    if pattern.len() > text.len() {
        return None;
    }
    let last: usize = text.len() - pattern.len();
    let mut at: usize = 0;
    loop
        invariant
            last == text.len() - pattern.len(),
            at <= last,
            first_occurrence(text@, pattern@) == first_occurrence_from(text@, pattern@, at as int),
        decreases last - at,
    {
        if stands_at(text, pattern, at) {
            return Some(at);
        }
        if at == last {
            assert(first_occurrence_from(text@, pattern@, at + 1) is None);
            return None;
        }
        at = at + 1;
    }
}

/// Whether `c` is an ASCII decimal digit.
pub open spec fn is_digit(c: char) -> bool {
    '0' <= c && c <= '9'
}

/// The number that a digit stands for.
pub open spec fn digit_value(c: char) -> nat {
    (c as u32 - '0' as u32) as nat
}

/// The number that a run of decimal digits stands for; the empty run stands for zero.
pub open spec fn digits_value(digits: Seq<char>) -> nat
    decreases digits.len(),
{
    if digits.len() == 0 {
        0
    } else {
        digits_value(digits.drop_last()) * 10 + digit_value(digits.last())
    }
}

/// The digits of a numeral: what follows an optional leading plus sign.
pub open spec fn numeral_digits(text: Seq<char>) -> Seq<char> {
    if text.len() > 0 && text[0] == '+' {
        text.subrange(1, text.len() as int)
    } else {
        text
    }
}

/// Whether `text` is a numeral: an optional plus sign, then one decimal digit or more.
pub open spec fn is_numeral(text: Seq<char>) -> bool {
    &&& numeral_digits(text).len() > 0
    &&& forall|i: int|
        0 <= i < numeral_digits(text).len() ==> is_digit(#[trigger] numeral_digits(text)[i])
}

/// What `text` reads as: the value of a numeral that is at most `max`, and
/// nothing for any other text.
pub open spec fn read_numeral(text: Seq<char>, max: nat) -> Option<nat> {
    if is_numeral(text) && digits_value(numeral_digits(text)) <= max {
        Some(digits_value(numeral_digits(text)))
    } else {
        None
    }
}

/// A run of digits stands for at least what any of its prefixes stands for.
proof fn lemma_digits_value_grows(digits: Seq<char>, k: int)
    requires
        0 <= k <= digits.len(),
    ensures
        digits_value(digits.subrange(0, k)) <= digits_value(digits),
    decreases digits.len() - k,
{
    if k == digits.len() {
        assert(digits.subrange(0, k) == digits);
    } else {
        lemma_digits_value_grows(digits.drop_last(), k);
        assert(digits.drop_last().subrange(0, k) == digits.subrange(0, k));
    }
}

/// Reads a numeral that is at most `max`.
pub fn parse_numeral(text: &[char], max: u64) -> (value: Option<u64>)
    ensures
        match value {
            Some(v) => read_numeral(text@, max as nat) == Some(v as nat),
            None => read_numeral(text@, max as nat) is None,
        },
{
    let start: usize = if text.len() > 0 && text[0] == '+' {
        1
    } else {
        0
    };
    let ghost digits = numeral_digits(text@);
    assert(digits == text@.subrange(start as int, text.len() as int));
    if start == text.len() {
        return None;
    }
    let mut value: u64 = 0;
    let mut i: usize = start;
    while i < text.len()
        invariant
            start <= i <= text.len(),
            digits == numeral_digits(text@),
            digits == text@.subrange(start as int, text.len() as int),
            forall|k: int| 0 <= k < i - start ==> is_digit(#[trigger] digits[k]),
            value == digits_value(digits.subrange(0, i - start)),
            value <= max,
        decreases text.len() - i,
    {
        let c = text[i];
        assert(c == digits[i - start]);
        if !('0' <= c && c <= '9') {
            return None;
        }
        let d: u64 = (c as u8 - '0' as u8) as u64;
        assert(d == digit_value(c));
        assert(digits.subrange(0, i - start + 1).drop_last() == digits.subrange(0, i - start));
        assert(digits.subrange(0, i - start + 1).last() == c);
        assert(digits_value(digits.subrange(0, i - start + 1)) == value * 10 + d);
        if d > max || value > (max - d) / 10 {
            proof {
                if is_numeral(text@) {
                    lemma_digits_value_grows(digits, i - start + 1);
                }
            }
            return None;
        }
        value = value * 10 + d;
        i = i + 1;
    }
    assert(digits.subrange(0, digits.len() as int) == digits);
    Some(value)
}

} // verus!

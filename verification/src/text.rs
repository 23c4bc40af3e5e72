//! Texts as sequences of characters: search, trimming and decimal numbers.

use vstd::prelude::*;

verus! {

/// `needle` stands in `haystack` at position `at`.
pub open spec fn spec_occurs_at(haystack: Seq<char>, needle: Seq<char>, at: int) -> bool {
    &&& 0 <= at
    &&& at + needle.len() <= haystack.len()
    &&& haystack.subrange(at, at + needle.len()) == needle
}

/// `needle` stands somewhere in `haystack`.
pub open spec fn spec_contains(haystack: Seq<char>, needle: Seq<char>) -> bool {
    exists|at: int| spec_occurs_at(haystack, needle, at)
}

/// `text` begins with `prefix`.
pub open spec fn spec_starts_with(text: Seq<char>, prefix: Seq<char>) -> bool {
    spec_occurs_at(text, prefix, 0)
}

/// The characters of `text`.
pub(crate) fn chars_of(text: &str) -> (chars: Vec<char>)
    ensures
        chars@ == text@,
{
    let mut chars: Vec<char> = Vec::new();
    for c in it: text.chars()
        invariant
            it.seq() == text@,
            chars@ == text@.take(it.index() as int),
    {
        chars.push(c);
        proof {
            assert(text@.take(it.index() + 1) =~= text@.take(it.index() as int).push(c));
        }
    }
    proof {
        assert(text@.take(text@.len() as int) =~= text@);
    }
    chars
}

pub(crate) fn occurs_at(haystack: &Vec<char>, needle: &Vec<char>, at: usize) -> (found: bool)
    ensures
        found == spec_occurs_at(haystack@, needle@, at as int),
{
    if needle.len() > haystack.len() || at > haystack.len() - needle.len() {
        return false;
    }
    let mut i: usize = 0;
    while i < needle.len()
        invariant
            i <= needle.len(),
            at + needle.len() <= haystack.len(),
            forall|j: int| 0 <= j < i ==> haystack@[at + j] == needle@[j],
        decreases needle.len() - i,
    {
        if haystack[at + i] != needle[i] {
            proof {
                assert(haystack@.subrange(at as int, at + needle.len())[i as int] == haystack@[at + i]);
            }
            return false;
        }
        i += 1;
    }
    proof {
        assert(haystack@.subrange(at as int, at + needle.len()) =~= needle@);
    }
    true
}

pub(crate) fn contains(haystack: &Vec<char>, needle: &Vec<char>) -> (found: bool)
    ensures
        found == spec_contains(haystack@, needle@),
{
    if needle.len() > haystack.len() {
        return false;
    }
    let last = haystack.len() - needle.len();
    let mut at: usize = 0;
    while at < last
        invariant
            last == haystack.len() - needle.len(),
            needle.len() <= haystack.len(),
            at <= last,
            forall|k: int| 0 <= k < at ==> !spec_occurs_at(haystack@, needle@, k),
        decreases last - at,
    {
        if occurs_at(haystack, needle, at) {
            return true;
        }
        at += 1;
    }
    occurs_at(haystack, needle, last)
}

/// White space, as Unicode defines it.
pub open spec fn spec_is_whitespace(c: char) -> bool {
    let n = c as u32;
    ||| 0x09 <= n <= 0x0d
    ||| n == 0x20
    ||| n == 0x85
    ||| n == 0xa0
    ||| n == 0x1680
    ||| 0x2000 <= n <= 0x200a
    ||| n == 0x2028
    ||| n == 0x2029
    ||| n == 0x202f
    ||| n == 0x205f
    ||| n == 0x3000
}

/// `text` without the white space it begins with.
pub open spec fn spec_trim_start(text: Seq<char>) -> Seq<char>
    decreases text.len(),
{
    if text.len() > 0 && spec_is_whitespace(text[0]) {
        spec_trim_start(text.skip(1))
    } else {
        text
    }
}

/// `text` without the white space it ends with.
pub open spec fn spec_trim_end(text: Seq<char>) -> Seq<char>
    decreases text.len(),
{
    if text.len() > 0 && spec_is_whitespace(text.last()) {
        spec_trim_end(text.drop_last())
    } else {
        text
    }
}

/// `text` without the white space at its ends.
pub open spec fn spec_trim(text: Seq<char>) -> Seq<char> {
    spec_trim_end(spec_trim_start(text))
}

/// A decimal digit.
pub open spec fn spec_is_digit(c: char) -> bool {
    0x30 <= c as u32 <= 0x39
}

/// The number that the decimal digits `digits` write.
pub open spec fn spec_decimal(digits: Seq<char>) -> nat
    decreases digits.len(),
{
    if digits.len() == 0 {
        0
    } else {
        10 * spec_decimal(digits.drop_last()) + (digits.last() as u32 - 0x30) as nat
    }
}

/// The digits of a number text: the text without a leading `+`.
pub open spec fn spec_unsigned(text: Seq<char>) -> Seq<char> {
    if text.len() > 0 && text[0] == '+' {
        text.skip(1)
    } else {
        text
    }
}

/// The number that `text` writes: an optional `+` and then at least one
/// digit, nothing else, and a value that fits 64 bits. `None` otherwise.
pub open spec fn spec_parse_u64(text: Seq<char>) -> Option<u64> {
    let digits = spec_unsigned(text);
    if digits.len() > 0 && (forall|i: int| 0 <= i < digits.len() ==> spec_is_digit(#[trigger] digits[i]))
        && spec_decimal(digits) <= u64::MAX {
        Some(spec_decimal(digits) as u64)
    } else {
        None
    }
}

pub(crate) fn is_whitespace(c: char) -> (white: bool)
    ensures
        white == spec_is_whitespace(c),
{
    let n = c as u32;
    (0x09 <= n && n <= 0x0d) || n == 0x20 || n == 0x85 || n == 0xa0 || n == 0x1680 || (0x2000 <= n && n <= 0x200a)
        || n == 0x2028 || n == 0x2029 || n == 0x202f || n == 0x205f || n == 0x3000
}

/// A longer run of digits writes no smaller number.
pub proof fn lemma_decimal_grows(digits: Seq<char>, n: int)
    requires
        0 <= n <= digits.len(),
    ensures
        spec_decimal(digits.take(n)) <= spec_decimal(digits),
    decreases digits.len() - n,
{
    if n == digits.len() {
        assert(digits.take(n) =~= digits);
    } else {
        lemma_decimal_grows(digits, n + 1);
        assert(digits.take(n + 1).drop_last() =~= digits.take(n));
    }
}

/// The number that `text[from..to]` writes, as `spec_parse_u64` has it.
pub(crate) fn parse_u64(text: &Vec<char>, from: usize, to: usize) -> (number: Option<u64>)
    requires
        from <= to <= text.len(),
    ensures
        number == spec_parse_u64(text@.subrange(from as int, to as int)),
{
    let ghost whole = text@.subrange(from as int, to as int);
    let start = if from < to && text[from] == '+' {
        from + 1
    } else {
        from
    };
    let ghost digits = spec_unsigned(whole);
    proof {
        assert(digits =~= text@.subrange(start as int, to as int));
    }
    if start == to {
        return None;
    }
    let mut value: u64 = 0;
    let mut i: usize = start;
    proof {
        assert(digits.take(0) =~= Seq::<char>::empty());
    }
    while i < to
        invariant
            start <= i <= to <= text.len(),
            from <= to,
            digits == spec_unsigned(text@.subrange(from as int, to as int)),
            digits == text@.subrange(start as int, to as int),
            forall|j: int| 0 <= j < i - start ==> spec_is_digit(#[trigger] digits[j]),
            value == spec_decimal(digits.take(i - start)),
        decreases to - i,
    {
        let n = text[i] as u32;
        if n < 0x30 || n > 0x39 {
            proof {
                assert(!spec_is_digit(digits[i - start]));
            }
            return None;
        }
        let d = (n - 0x30) as u64;
        proof {
            assert(digits.take(i - start + 1).drop_last() =~= digits.take(i - start));
            assert(digits.take(i - start + 1).last() == text@[i as int]);
            lemma_decimal_grows(digits, i - start + 1);
        }
        if value > (u64::MAX - d) / 10 {
            proof {
                assert(10 * value + d > u64::MAX);
                assert(spec_decimal(digits.take(i - start + 1)) == 10 * value + d);
            }
            return None;
        }
        value = value * 10 + d;
        i += 1;
    }
    proof {
        assert(digits.take(to - start) =~= digits);
    }
    Some(value)
}

/// The bounds of `text` without the white space at its ends.
pub(crate) fn trim(text: &Vec<char>) -> (bounds: (usize, usize))
    ensures
        bounds.0 <= bounds.1 <= text.len(),
        text@.subrange(bounds.0 as int, bounds.1 as int) == spec_trim(text@),
{
    let mut lo: usize = 0;
    proof {
        assert(text@.skip(0) =~= text@);
    }
    while lo < text.len() && is_whitespace(text[lo])
        invariant
            lo <= text.len(),
            spec_trim_start(text@) == spec_trim_start(text@.skip(lo as int)),
        decreases text.len() - lo,
    {
        proof {
            assert(text@.skip(lo as int).skip(1) =~= text@.skip(lo + 1));
        }
        lo += 1;
    }
    let ghost started = text@.skip(lo as int);
    proof {
        assert(spec_trim_start(text@) == started);
        assert(started.take(started.len() as int) =~= started);
    }
    let mut hi: usize = text.len();
    while hi > lo && is_whitespace(text[hi - 1])
        invariant
            lo <= hi <= text.len(),
            started == text@.skip(lo as int),
            spec_trim_end(started) == spec_trim_end(started.take(hi - lo)),
        decreases hi - lo,
    {
        proof {
            assert(started.take(hi - lo).last() == text@[hi - 1]);
            assert(started.take(hi - lo).drop_last() =~= started.take(hi - lo - 1));
        }
        hi -= 1;
    }
    proof {
        let ended = started.take(hi - lo);
        if hi > lo {
            assert(ended.last() == text@[hi - 1]);
        }
        assert(spec_trim_end(ended) == ended);
        assert(ended =~= text@.subrange(lo as int, hi as int));
    }
    (lo, hi)
}

/// A copy of `text[from..to]` as a string.
pub(crate) fn string_of(text: &Vec<char>, from: usize, to: usize) -> (copy: String)
    requires
        from <= to <= text.len(),
    ensures
        copy@ == text@.subrange(from as int, to as int),
{
    let mut copy = String::new();
    let mut i: usize = from;
    while i < to
        invariant
            from <= i <= to <= text.len(),
            copy@ == text@.subrange(from as int, i as int),
        decreases to - i,
    {
        push_char(&mut copy, text[i]);
        proof {
            assert(text@.subrange(from as int, i + 1) =~= text@.subrange(from as int, i as int).push(text@[i as int]));
        }
        i += 1;
    }
    copy
}

/// `String::push` of std, for which no specification is at hand: the text
/// afterwards is the text before with `c` appended, as std documents it.
#[verifier::external_body]
pub(crate) fn push_char(text: &mut String, c: char)
    ensures
        final(text)@ == old(text)@.push(c),
{
    text.push(c)
}

/// The ten digits, by value.
pub open spec fn spec_digits() -> Seq<char> {
    seq!['0', '1', '2', '3', '4', '5', '6', '7', '8', '9']
}

/// `n` written in decimal digits, without leading zeros.
pub open spec fn spec_decimal_text(n: nat) -> Seq<char>
    decreases n,
{
    if n < 10 {
        seq![spec_digits()[n as int]]
    } else {
        spec_decimal_text(n / 10).push(spec_digits()[(n % 10) as int])
    }
}

/// Appends `n` in decimal digits to `text`.
pub(crate) fn push_decimal(text: &mut String, n: u64)
    ensures
        final(text)@ == old(text)@ + spec_decimal_text(n as nat),
{
    let digits: [char; 10] = ['0', '1', '2', '3', '4', '5', '6', '7', '8', '9'];
    // The digits of `n`, the last one first.
    let mut reversed: Vec<char> = Vec::new();
    let mut rest = n;
    while rest >= 10
        invariant
            digits@ == spec_digits(),
            spec_decimal_text(n as nat) == spec_decimal_text(rest as nat) + reversed@.reverse(),
        decreases rest,
    {
        let ghost before = reversed@;
        reversed.push(digits[(rest % 10) as usize]);
        proof {
            let d = spec_digits()[(rest % 10) as int];
            assert(reversed@.reverse() =~= seq![d] + before.reverse());
            assert(spec_decimal_text(rest as nat) == spec_decimal_text((rest / 10) as nat).push(d));
            assert(spec_decimal_text((rest / 10) as nat).push(d) + before.reverse() =~= spec_decimal_text(
                (rest / 10) as nat,
            ) + (seq![d] + before.reverse()));
        }
        rest = rest / 10;
    }
    let ghost low = reversed@;
    reversed.push(digits[rest as usize]);
    proof {
        assert(reversed@.reverse() =~= spec_decimal_text(rest as nat) + low.reverse());
    }
    let mut i: usize = reversed.len();
    proof {
        assert(reversed@.reverse().take(0) =~= Seq::<char>::empty());
        assert(old(text)@ + Seq::<char>::empty() =~= old(text)@);
    }
    while i > 0
        invariant
            i <= reversed.len(),
            text@ == old(text)@ + reversed@.reverse().take(reversed.len() - i),
        decreases i,
    {
        i -= 1;
        push_char(text, reversed[i]);
        proof {
            let whole = reversed@.reverse();
            let done = reversed.len() - i;
            assert(whole[done - 1] == reversed@[i as int]);
            assert(whole.take(done) =~= whole.take(done - 1).push(whole[done - 1]));
            assert((old(text)@ + whole.take(done - 1)).push(whole[done - 1]) =~= old(text)@ + whole.take(done));
        }
    }
    proof {
        assert(reversed@.reverse().take(reversed.len() as int) =~= reversed@.reverse());
    }
}

} // verus!

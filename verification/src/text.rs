//! Small verified helpers on text: joining pieces, the part of a string
//! behind its last separator, and unsigned decimal numbers.

use vstd::prelude::*;

verus! {

/// Where the last segment of `s` begins when `s` is cut at every `sep`:
/// just behind the last `sep`, or at 0 where `s` holds none.
pub open spec fn segment_start(s: Seq<char>, sep: char) -> int
    decreases s.len(),
{
    if s.len() == 0 {
        0
    } else if s.last() == sep {
        s.len() as int
    } else {
        segment_start(s.drop_last(), sep)
    }
}

/// The last of the pieces that cutting `s` at every `sep` leaves. It is empty
/// where `s` is empty or ends in `sep`.
pub open spec fn last_segment_of(s: Seq<char>, sep: char) -> Seq<char> {
    s.subrange(segment_start(s, sep), s.len() as int)
}

/// Whether `c` is one of the ten decimal digits of ASCII.
pub open spec fn is_digit(c: char) -> bool {
    '0' <= c <= '9'
}

/// Whether `s` holds decimal digits only.
pub open spec fn all_digits(s: Seq<char>) -> bool {
    forall|i: int| 0 <= i < s.len() ==> is_digit(#[trigger] s[i])
}

/// The number that the digit `c` stands for.
pub open spec fn digit_value(c: char) -> nat {
    (c as u32 - '0' as u32) as nat
}

/// The number that a string of decimal digits writes, most significant digit first.
pub open spec fn decimal_value(digits: Seq<char>) -> nat
    decreases digits.len(),
{
    if digits.len() == 0 {
        0
    } else {
        decimal_value(digits.drop_last()) * 10 + digit_value(digits.last())
    }
}

/// `s` without one leading plus sign.
pub open spec fn unsigned_part(s: Seq<char>) -> Seq<char> {
    if s.len() > 0 && s[0] == '+' {
        s.skip(1)
    } else {
        s
    }
}

/// The 32-bit unsigned number that `s` writes in decimal: an optional plus
/// sign, then one digit or more, with a value that fits. Anything else writes
/// no number.
pub open spec fn parsed_u32(s: Seq<char>) -> Option<u32> {
    let digits = unsigned_part(s);
    if digits.len() > 0 && all_digits(digits) && decimal_value(digits) <= u32::MAX {
        Some(decimal_value(digits) as u32)
    } else {
        None
    }
}

/// A text that may be missing, as plain values.
pub open spec fn option_text(text: Option<String>) -> Option<Seq<char>> {
    match text {
        Some(t) => Some(t@),
        None => None,
    }
}

/// The last segment holds no separator, and stands right behind one unless it
/// is the whole string.
pub proof fn lemma_segment_start(s: Seq<char>, sep: char)
    ensures
        0 <= segment_start(s, sep) <= s.len(),
        segment_start(s, sep) > 0 ==> s[segment_start(s, sep) - 1] == sep,
        forall|i: int| segment_start(s, sep) <= i < s.len() ==> s[i] != sep,
        !last_segment_of(s, sep).contains(sep),
    decreases s.len(),
{
    if s.len() > 0 && s.last() != sep {
        let front = s.drop_last();
        lemma_segment_start(front, sep);
        assert forall|i: int| segment_start(s, sep) <= i < s.len() implies s[i] != sep by {
            if i < front.len() {
                assert(front[i] == s[i]);
            }
        }
    }
}

/// A string with no separator in it is its own last segment.
pub proof fn lemma_segment_whole(s: Seq<char>, sep: char)
    requires
        !s.contains(sep),
    ensures
        last_segment_of(s, sep) == s,
    decreases s.len(),
{
    if s.len() > 0 {
        assert(s.last() == s[s.len() - 1]);
        let front = s.drop_last();
        assert forall|i: int| 0 <= i < front.len() implies front[i] != sep by {
            assert(front[i] == s[i]);
        }
        lemma_segment_whole(front, sep);
        assert(segment_start(front, sep) == 0) by {
            lemma_segment_start(front, sep);
            if segment_start(front, sep) > 0 {
                assert(front.contains(front[segment_start(front, sep) - 1]));
            }
        }
    }
    assert(last_segment_of(s, sep) =~= s);
}

/// What stands behind a separator and holds none is the last segment,
/// whatever stands before the separator.
pub proof fn lemma_segment_behind_separator(front: Seq<char>, sep: char, tail: Seq<char>)
    requires
        !tail.contains(sep),
    ensures
        last_segment_of(front.push(sep) + tail, sep) == tail,
    decreases tail.len(),
{
    let s = front.push(sep) + tail;
    if tail.len() == 0 {
        assert(s =~= front.push(sep));
    } else {
        let shorter = tail.drop_last();
        assert forall|i: int| 0 <= i < shorter.len() implies shorter[i] != sep by {
            assert(tail.contains(tail[i]));
        }
        lemma_segment_behind_separator(front, sep, shorter);
        assert(s.drop_last() =~= front.push(sep) + shorter);
        assert(tail.contains(tail[tail.len() - 1]));
        lemma_segment_start(s.drop_last(), sep);
        assert(last_segment_of(s.drop_last(), sep).len() == shorter.len());
    }
    assert(last_segment_of(s, sep) =~= tail);
}

/// A longer string of digits writes a number at least as large as each of its
/// beginnings.
pub proof fn lemma_decimal_value_grows(digits: Seq<char>, n: int)
    requires
        0 <= n <= digits.len(),
    ensures
        decimal_value(digits.take(n)) <= decimal_value(digits),
    decreases digits.len() - n,
{
    if n == digits.len() {
        assert(digits.take(n) =~= digits);
    } else {
        lemma_decimal_value_grows(digits.drop_last(), n);
        assert(digits.drop_last().take(n) =~= digits.take(n));
    }
}

/// The characters of `s`, in order.
pub fn chars_of(s: &str) -> (out: Vec<char>)
    ensures
        out@ == s@,
{
    let mut out: Vec<char> = Vec::new();
    for c in it: s.chars()
        invariant
            out@ == it.seq().take(it.index() as int),
            it.seq() == s@,
    {
        out.push(c);
    }
    out
}

/// `first`, then `second`.
pub fn join(first: &str, second: &str) -> (out: String)
    ensures
        out@ == first@ + second@,
{
    String::from_str(first).concat(second)
}

/// The part of `s` behind its last `sep`, or all of `s` where it holds none.
pub fn last_segment<'a>(s: &'a str, sep: char) -> (segment: &'a str)
    ensures
        segment@ == last_segment_of(s@, sep),
{
    let chars = chars_of(s);
    let n: usize = chars.len();
    let mut start: usize = 0;
    let mut i: usize = 0;
    while i < n
        invariant
            n == chars@.len(),
            0 <= i <= n,
            start == segment_start(chars@.take(i as int), sep),
            start <= i,
        decreases n - i,
    {
        proof {
            assert(chars@.take(i + 1).drop_last() =~= chars@.take(i as int));
        }
        if chars[i] == sep {
            start = i + 1;
        }
        i += 1;
    }
    proof {
        assert(chars@.take(n as int) =~= chars@);
    }
    s.substring_char(start, n)
}

/// Reads an unsigned decimal number of at most 32 bits.
pub fn parse_u32(s: &str) -> (number: Option<u32>)
    ensures
        number == parsed_u32(s@),
{
    let chars = chars_of(s);
    let n: usize = chars.len();
    let first: usize = if n > 0 && chars[0] == '+' {
        1
    } else {
        0
    };
    let ghost digits = unsigned_part(s@);
    proof {
        assert(digits =~= chars@.skip(first as int));
    }
    if first == n {
        return None;
    }
    let mut value: u32 = 0;
    let mut i: usize = first;
    while i < n
        invariant
            n == chars@.len(),
            first <= i <= n,
            digits == unsigned_part(s@),
            digits == chars@.skip(first as int),
            all_digits(digits.take(i - first)),
            value == decimal_value(digits.take(i - first)),
        decreases n - i,
    {
        let c = chars[i];
        let ghost k: int = i - first;
        proof {
            assert(digits[k] == c);
            assert(digits.take(k + 1).drop_last() =~= digits.take(k));
            assert(digits.take(k + 1).last() == c);
        }
        if c < '0' || c > '9' {
            proof {
                assert(!is_digit(digits[k]));
            }
            return None;
        }
        let digit: u32 = c as u32 - 48;
        if value > (u32::MAX - digit) / 10 {
            proof {
                assert(decimal_value(digits.take(k + 1)) == value * 10 + digit);
                lemma_decimal_value_grows(digits, k + 1);
            }
            return None;
        }
        value = value * 10 + digit;
        i += 1;
        proof {
            assert forall|j: int| 0 <= j < digits.take(k + 1).len() implies is_digit(
                #[trigger] digits.take(k + 1)[j],
            ) by {
                if j < k {
                    assert(digits.take(k)[j] == digits.take(k + 1)[j]);
                }
            }
        }
    }
    proof {
        assert(digits.take(n - first) =~= digits);
    }
    Some(value)
}

} // verus!

//! Characters, white space and decimal numbers in text.

use vstd::prelude::*;
use vstd::string::*;

verus! {

/// White space as Unicode defines it (the property `White_Space`).
pub open spec fn is_space(c: char) -> bool {
    let u = c as u32;
    ||| 0x09 <= u <= 0x0D
    ||| u == 0x20
    ||| u == 0x85
    ||| u == 0xA0
    ||| u == 0x1680
    ||| 0x2000 <= u <= 0x200A
    ||| u == 0x2028
    ||| u == 0x2029
    ||| u == 0x202F
    ||| u == 0x205F
    ||| u == 0x3000
}

/// Tells whether a character is white space.
pub fn is_whitespace(c: char) -> (space: bool)
    ensures
        space == is_space(c),
{
    let u: u32 = c as u32;
    (0x09 <= u && u <= 0x0D) || u == 0x20 || u == 0x85 || u == 0xA0 || u == 0x1680 || (0x2000 <= u
        && u <= 0x200A) || u == 0x2028 || u == 0x2029 || u == 0x202F || u == 0x205F || u == 0x3000
}

/// The characters of a string, in order.
pub fn chars_of(s: &str) -> (chars: Vec<char>)
    ensures
        chars@ == s@,
{
    let n: usize = s.unicode_len();
    let mut chars: Vec<char> = Vec::new();
    let mut i: usize = 0;
    while i < n
        invariant
            i <= n,
            n == s@.len(),
            chars@ == s@.subrange(0, i as int),
        decreases n - i,
    {
        chars.push(s.get_char(i));
        i = i + 1;
    }
    chars
}

/// The part of `s` that is left when the white space at both ends is taken
/// away.
pub open spec fn trimmed(s: Seq<char>) -> Seq<char>
    decreases s.len(),
{
    if s.len() == 0 {
        s
    } else if is_space(s[0]) {
        trimmed(s.drop_first())
    } else if is_space(s.last()) {
        trimmed(s.drop_last())
    } else {
        s
    }
}

/// Finds the bounds of `chars[lo..hi]` without the white space at its ends.
pub fn trim_bounds(chars: &Vec<char>, lo: usize, hi: usize) -> (bounds: (usize, usize))
    requires
        lo <= hi <= chars.len(),
    ensures
        lo <= bounds.0 <= bounds.1 <= hi,
        chars@.subrange(bounds.0 as int, bounds.1 as int) == trimmed(
            chars@.subrange(lo as int, hi as int),
        ),
        forall|i: int| lo <= i < bounds.0 || bounds.1 <= i < hi ==> is_space(chars@[i]),
        bounds.0 < bounds.1 ==> !is_space(chars@[bounds.0 as int]) && !is_space(
            chars@[bounds.1 - 1],
        ),
        bounds.0 == bounds.1 ==> bounds.0 == hi,
{
    let mut a: usize = lo;
    while a < hi && is_whitespace(chars[a])
        invariant
            lo <= a <= hi <= chars.len(),
            forall|i: int| lo <= i < a ==> is_space(chars@[i]),
            trimmed(chars@.subrange(a as int, hi as int)) == trimmed(
                chars@.subrange(lo as int, hi as int),
            ),
        decreases hi - a,
    {
        assert(chars@.subrange(a as int, hi as int).drop_first() == chars@.subrange(
            a as int + 1,
            hi as int,
        ));
        a = a + 1;
    }
    let mut b: usize = hi;
    while a < b && is_whitespace(chars[b - 1])
        invariant
            a <= b <= hi <= chars.len(),
            a < hi ==> !is_space(chars@[a as int]),
            forall|i: int| b <= i < hi ==> is_space(chars@[i]),
            trimmed(chars@.subrange(a as int, b as int)) == trimmed(
                chars@.subrange(lo as int, hi as int),
            ),
        decreases b - a,
    {
        assert(chars@.subrange(a as int, b as int).drop_last() == chars@.subrange(
            a as int,
            b as int - 1,
        ));
        b = b - 1;
    }
    (a, b)
}

/// The index of the first `mark` in `s`, or the length of `s` where it holds
/// none.
pub open spec fn position(s: Seq<char>, mark: char) -> int
    decreases s.len(),
{
    if s.len() == 0 || s[0] == mark {
        0
    } else {
        1 + position(s.drop_first(), mark)
    }
}

/// `position` is the least index that holds the mark.
pub proof fn lemma_position(s: Seq<char>, mark: char)
    ensures
        0 <= position(s, mark) <= s.len(),
        forall|i: int| 0 <= i < position(s, mark) ==> s[i] != mark,
        position(s, mark) < s.len() ==> s[position(s, mark)] == mark,
    decreases s.len(),
{
    if s.len() == 0 || s[0] == mark {
    } else {
        let rest = s.drop_first();
        lemma_position(rest, mark);
        assert forall|i: int| 0 <= i < position(s, mark) implies s[i] != mark by {
            if i > 0 {
                assert(s[i] == rest[i - 1]);
            }
        }
    }
}

/// An index with the mark's properties is `position`.
pub proof fn lemma_position_is(s: Seq<char>, mark: char, at: int)
    requires
        0 <= at <= s.len(),
        forall|i: int| 0 <= i < at ==> s[i] != mark,
        at < s.len() ==> s[at] == mark,
    ensures
        position(s, mark) == at,
{
    lemma_position(s, mark);
    let p = position(s, mark);
    if p < at {
        assert(s[p] == mark);
    } else if at < p {
        assert(s[at] == mark);
    }
}

/// Finds the first `mark` in `chars[lo..hi]`; the result is an index into
/// `chars`, `hi` where there is none.
pub fn find_mark(chars: &Vec<char>, lo: usize, hi: usize, mark: char) -> (at: usize)
    requires
        lo <= hi <= chars.len(),
    ensures
        lo <= at <= hi,
        at - lo == position(chars@.subrange(lo as int, hi as int), mark),
{
    let mut at: usize = lo;
    while at < hi && chars[at] != mark
        invariant
            lo <= at <= hi <= chars.len(),
            forall|i: int| lo <= i < at ==> chars@[i] != mark,
        decreases hi - at,
    {
        at = at + 1;
    }
    proof {
        lemma_position_is(chars@.subrange(lo as int, hi as int), mark, at - lo);
    }
    at
}

/// An ASCII decimal digit.
pub open spec fn is_digit(c: char) -> bool {
    0x30 <= c as u32 <= 0x39
}

/// The number that a decimal digit stands for.
pub open spec fn digit_value(c: char) -> int {
    c as u32 - 0x30
}

/// Every character of `s` is a decimal digit.
pub open spec fn all_digits(s: Seq<char>) -> bool {
    forall|i: int| 0 <= i < s.len() ==> is_digit(#[trigger] s[i])
}

/// The number that a run of decimal digits denotes; 0 for the empty run.
pub open spec fn decimal_value(s: Seq<char>) -> int
    decreases s.len(),
{
    if s.len() == 0 {
        0
    } else {
        decimal_value(s.drop_last()) * 10 + digit_value(s.last())
    }
}

/// The digits of a signed decimal number: `s` without a leading sign.
pub open spec fn unsigned_part(s: Seq<char>) -> Seq<char> {
    if s.len() > 0 && (s[0] == '-' || s[0] == '+') {
        s.drop_first()
    } else {
        s
    }
}

/// The integer that `s` denotes as a signed decimal number, without regard
/// to any range.
pub open spec fn signed_value(s: Seq<char>) -> int {
    if s.len() > 0 && s[0] == '-' {
        -decimal_value(unsigned_part(s))
    } else {
        decimal_value(unsigned_part(s))
    }
}

/// What `s` is as a 32-bit signed decimal number: an optional `+` or `-`,
/// then at least one digit and nothing else, the value within range.
pub open spec fn parsed_i32(s: Seq<char>) -> Option<int> {
    if unsigned_part(s).len() > 0 && all_digits(unsigned_part(s)) && i32::MIN <= signed_value(s)
        <= i32::MAX {
        Some(signed_value(s))
    } else {
        None
    }
}

/// A run of digits denotes at least what any of its prefixes denotes.
pub proof fn lemma_decimal_value_grows(s: Seq<char>, k: int)
    requires
        all_digits(s),
        0 <= k <= s.len(),
    ensures
        0 <= decimal_value(s.subrange(0, k)) <= decimal_value(s),
    decreases s.len(),
{
    if s.len() == 0 {
        assert(s.subrange(0, k) == s);
    } else {
        let front = s.drop_last();
        assert(is_digit(s[s.len() - 1]));
        assert forall|i: int| 0 <= i < front.len() implies is_digit(#[trigger] front[i]) by {
            assert(front[i] == s[i]);
        }
        if k == s.len() {
            assert(s.subrange(0, k) == s);
            lemma_decimal_value_grows(front, k - 1);
        } else {
            lemma_decimal_value_grows(front, k);
            assert(front.subrange(0, k) == s.subrange(0, k));
        }
    }
}

/// Reads `chars[lo..hi]` as a 32-bit signed decimal number.
pub fn parse_i32(chars: &Vec<char>, lo: usize, hi: usize) -> (number: Option<i32>)
    requires
        lo <= hi <= chars.len(),
    ensures
        match number {
            Some(v) => parsed_i32(chars@.subrange(lo as int, hi as int)) == Some(v as int),
            None => parsed_i32(chars@.subrange(lo as int, hi as int)) is None,
        },
{
    let ghost s = chars@.subrange(lo as int, hi as int);
    if lo == hi {
        return None;
    }
    let negative: bool = chars[lo] == '-';
    let start: usize = if negative || chars[lo] == '+' {
        lo + 1
    } else {
        lo
    };
    let ghost digits = unsigned_part(s);
    assert(digits == chars@.subrange(start as int, hi as int));
    if start == hi {
        return None;
    }
    let mut magnitude: i64 = 0;
    let mut at: usize = start;
    while at < hi
        invariant
            start <= at <= hi <= chars.len(),
            s == chars@.subrange(lo as int, hi as int),
            digits == unsigned_part(s),
            digits == chars@.subrange(start as int, hi as int),
            all_digits(digits.subrange(0, at - start)),
            magnitude == decimal_value(digits.subrange(0, at - start)),
            0 <= magnitude <= 0x8000_0000,
        decreases hi - at,
    {
        let u: u32 = chars[at] as u32;
        if u < 0x30 || u > 0x39 {
            assert(!is_digit(digits[at - start]));
            return None;
        }
        let ghost longer = digits.subrange(0, at - start + 1);
        assert(longer.drop_last() == digits.subrange(0, at - start));
        assert(longer.last() == chars@[at as int]);
        assert(all_digits(longer)) by {
            assert forall|i: int| 0 <= i < longer.len() implies is_digit(#[trigger] longer[i]) by {
                if i < at - start {
                    assert(longer[i] == digits.subrange(0, at - start)[i]);
                }
            }
        }
        let next: i64 = magnitude * 10 + (u as i64 - 0x30);
        if next > 0x8000_0000 {
            proof {
                if all_digits(digits) {
                    lemma_decimal_value_grows(digits, at - start + 1);
                }
            }
            return None;
        }
        magnitude = next;
        at = at + 1;
    }
    assert(digits.subrange(0, at - start) == digits);
    if negative {
        Some((-magnitude) as i32)
    } else if magnitude > 0x7FFF_FFFF {
        None
    } else {
        Some(magnitude as i32)
    }
}

/// The decimal digit that stands for `d`, for `d` below ten.
pub open spec fn digit_char(d: nat) -> char {
    if d == 0 {
        '0'
    } else if d == 1 {
        '1'
    } else if d == 2 {
        '2'
    } else if d == 3 {
        '3'
    } else if d == 4 {
        '4'
    } else if d == 5 {
        '5'
    } else if d == 6 {
        '6'
    } else if d == 7 {
        '7'
    } else if d == 8 {
        '8'
    } else {
        '9'
    }
}

/// The decimal digits of `n`, most significant first, without leading
/// zeros; `0` for zero.
pub open spec fn digits_of(n: nat) -> Seq<char>
    decreases n,
{
    if n < 10 {
        seq![digit_char(n)]
    } else {
        digits_of(n / 10).push(digit_char(n % 10))
    }
}

/// An integer in decimal: a `-` before the digits of a negative one.
pub open spec fn decimal_text(v: int) -> Seq<char> {
    if v < 0 {
        seq!['-'] + digits_of((-v) as nat)
    } else {
        digits_of(v as nat)
    }
}

/// The one-character text of a digit.
fn digit_text(d: u32) -> (text: &'static str)
    requires
        d < 10,
    ensures
        text@ == seq![digit_char(d as nat)],
{
    proof {
        reveal_strlit("0");
        reveal_strlit("1");
        reveal_strlit("2");
        reveal_strlit("3");
        reveal_strlit("4");
        reveal_strlit("5");
        reveal_strlit("6");
        reveal_strlit("7");
        reveal_strlit("8");
        reveal_strlit("9");
    }
    let text: &'static str = if d == 0 {
        "0"
    } else if d == 1 {
        "1"
    } else if d == 2 {
        "2"
    } else if d == 3 {
        "3"
    } else if d == 4 {
        "4"
    } else if d == 5 {
        "5"
    } else if d == 6 {
        "6"
    } else if d == 7 {
        "7"
    } else if d == 8 {
        "8"
    } else {
        "9"
    };
    assert(text@ =~= seq![digit_char(d as nat)]);
    text
}

/// Appends the decimal digits of `n` to `out`.
pub fn append_digits(out: &mut String, n: u32)
    ensures
        final(out)@ == old(out)@ + digits_of(n as nat),
    decreases n,
{
    if n >= 10 {
        append_digits(out, n / 10);
    }
    out.append(digit_text(n % 10));
    assert(out@ =~= old(out)@ + digits_of(n as nat));
}

/// Appends `v` in decimal to `out`.
pub fn append_decimal(out: &mut String, v: i32)
    ensures
        final(out)@ == old(out)@ + decimal_text(v as int),
{
    if v < 0 {
        proof {
            reveal_strlit("-");
        }
        out.append("-");
        let magnitude: u32 = if v == i32::MIN {
            0x8000_0000
        } else {
            (-v) as u32
        };
        append_digits(out, magnitude);
        assert(out@ =~= old(out)@ + decimal_text(v as int));
    } else {
        append_digits(out, v as u32);
    }
}

/// The digits written for a number are digits, at least one, and denote
/// that number.
pub proof fn lemma_digits_of(n: nat)
    ensures
        digits_of(n).len() > 0,
        all_digits(digits_of(n)),
        decimal_value(digits_of(n)) == n,
    decreases n,
{
    let d = digits_of(n);
    if n < 10 {
        assert(d.len() == 1);
        assert(is_digit(d[0]) && digit_value(d[0]) == n);
        assert(d.drop_last().len() == 0);
        assert(decimal_value(d) == decimal_value(d.drop_last()) * 10 + digit_value(d.last()));
    } else {
        let front = digits_of(n / 10);
        lemma_digits_of(n / 10);
        let last = digit_char(n % 10);
        assert(is_digit(last) && digit_value(last) == n % 10);
        assert(d == front.push(last));
        assert(d.drop_last() == front);
        assert forall|i: int| 0 <= i < d.len() implies is_digit(#[trigger] d[i]) by {
            if i < front.len() {
                assert(d[i] == front[i]);
            }
        }
    }
}

/// Text that neither begins nor ends in white space is its own trimming.
pub proof fn lemma_trimmed_is_whole(s: Seq<char>)
    requires
        s.len() > 0,
        !is_space(s[0]),
        !is_space(s.last()),
    ensures
        trimmed(s) == s,
{
}

/// Writing a 32-bit number in decimal and reading it back gives the number,
/// and the text written has no white space to trim.
pub proof fn lemma_decimal_round_trip(v: int)
    requires
        i32::MIN <= v <= i32::MAX,
    ensures
        trimmed(decimal_text(v)) == decimal_text(v),
        parsed_i32(decimal_text(v)) == Some(v),
{
    let t = decimal_text(v);
    if v < 0 {
        let d = digits_of((-v) as nat);
        lemma_digits_of((-v) as nat);
        assert(t.drop_first() == d);
        assert(t[0] == '-');
        assert(t.last() == d.last());
        assert(is_digit(d[d.len() - 1]));
    } else {
        lemma_digits_of(v as nat);
        assert(is_digit(t[0]));
        assert(is_digit(t[t.len() - 1]));
    }
    lemma_trimmed_is_whole(t);
}

/// Copies `s` without the white space at its ends.
pub fn trim_text(s: &str) -> (text: String)
    ensures
        text@ == trimmed(s@),
{
    let chars: Vec<char> = chars_of(s);
    assert(chars@.subrange(0, chars@.len() as int) == s@);
    let (a, b) = trim_bounds(&chars, 0, chars.len());
    String::from_str(s.substring_char(a, b))
}

} // verus!

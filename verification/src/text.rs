//! Text primitives shared by the wire formats: comparing strings, writing and
//! reading decimal numbers, and cutting whitespace-delimited fields out of a
//! line.
//!
//! Everything is specified over `Seq<char>`, the view of `str` and `String`.

use vstd::prelude::*;
use vstd::string::StringSliceAdditionalSpecFns;

verus! {

/// Whether two strings hold the same characters.
pub fn str_eq(a: &str, b: &str) -> (r: bool)
    ensures
        r == (a@ == b@),
{
    let x = a.as_bytes();
    let y = b.as_bytes();
    proof {
        // Equal encodings decode to equal texts.
        vstd::utf8::encode_utf8_decode_utf8(a@);
        vstd::utf8::encode_utf8_decode_utf8(b@);
    }
    if x.len() != y.len() {
        return false;
    }
    let mut i: usize = 0;
    while i < x.len()
        invariant
            i <= x.len(),
            x.len() == y.len(),
            forall|j: int| 0 <= j < i ==> x@[j] == y@[j],
            x@ == a.spec_bytes(),
            y@ == b.spec_bytes(),
            vstd::utf8::decode_utf8(a.spec_bytes()) == a@,
            vstd::utf8::decode_utf8(b.spec_bytes()) == b@,
        decreases x.len() - i,
    {
        if x[i] != y[i] {
            return false;
        }
        i += 1;
    }
    assert(x@ =~= y@);
    true
}

// ---------------------------------------------------------------------------
// Decimal numbers
// ---------------------------------------------------------------------------

/// The character that writes the digit `d`, for `0 <= d < 10`.
pub open spec fn digit_char(d: int) -> char {
    ('0' as int + d) as char
}

/// Whether `c` is one of `'0'` to `'9'`.
pub open spec fn is_digit(c: char) -> bool {
    '0' as int <= c as int <= '9' as int
}

/// The number a digit stands for; zero for any other character.
pub open spec fn digit_value(c: char) -> nat {
    if is_digit(c) {
        (c as int - '0' as int) as nat
    } else {
        0
    }
}

/// Decimal notation of `n`: most significant digit first, no sign, no padding,
/// and a single `0` for zero.
pub open spec fn decimal(n: nat) -> Seq<char>
    decreases n,
{
    if n < 10 {
        seq![digit_char(n as int)]
    } else {
        decimal(n / 10).push(digit_char((n % 10) as int))
    }
}

fn digit_str(d: u8) -> (r: &'static str)
    requires
        d < 10,
    ensures
        r@ == seq![digit_char(d as int)],
{
    proof {
        reveal_strlit("0");
        reveal_strlit("1");
        reveal_strlit("2");
        reveal_strlit("3");
        reveal_strlit("4");
        reveal_strlit("5");
        reveal_strlit("6");
        reveal_strlit("7");
        reveal_strlit("8");
        reveal_strlit("9");
    }
    let r = match d {
        0 => "0",
        1 => "1",
        2 => "2",
        3 => "3",
        4 => "4",
        5 => "5",
        6 => "6",
        7 => "7",
        8 => "8",
        _ => "9",
    };
    assert(r@ =~= seq![digit_char(d as int)]);
    r
}

/// Appends the decimal notation of `n` to `out`.
pub fn push_decimal(out: &mut String, n: u64)
    ensures
        final(out)@ == old(out)@ + decimal(n as nat),
    decreases n,
{
    if n >= 10 {
        push_decimal(out, n / 10);
    }
    out.append(digit_str((n % 10) as u8));
    assert(out@ =~= old(out)@ + decimal(n as nat));
}

/// The decimal notation of `n` as a string of its own.
pub fn decimal_string(n: u64) -> (r: String)
    ensures
        r@ == decimal(n as nat),
{
    let mut out = String::new();
    push_decimal(&mut out, n);
    assert(out@ =~= decimal(n as nat));
    out
}

/// The number written by a run of digits, read most significant digit first.
pub open spec fn digits_value(s: Seq<char>) -> nat
    decreases s.len(),
{
    if s.len() == 0 {
        0
    } else {
        digits_value(s.drop_last()) * 10 + digit_value(s.last())
    }
}

/// Whether every character of `s` is a digit.
pub open spec fn all_digits(s: Seq<char>) -> bool {
    forall|i: int| 0 <= i < s.len() ==> is_digit(#[trigger] s[i])
}

/// The digits of an unsigned number: the text itself, less one leading `+`.
pub open spec fn unsigned_digits(s: Seq<char>) -> Seq<char> {
    if s.len() > 0 && s[0] == '+' {
        s.drop_first()
    } else {
        s
    }
}

/// What a text denotes as a `u32`: an optional `+`, then one or more digits
/// and nothing else, whose value fits in 32 bits.
pub open spec fn parse_u32_spec(s: Seq<char>) -> Option<u32> {
    let body = unsigned_digits(s);
    if body.len() > 0 && all_digits(body) && digits_value(body) <= u32::MAX {
        Some(digits_value(body) as u32)
    } else {
        None
    }
}

proof fn lemma_digits_value_prefix(s: Seq<char>, k: int)
    requires
        0 <= k <= s.len(),
    ensures
        digits_value(s.take(k)) <= digits_value(s),
    decreases s.len() - k,
{
    if k == s.len() {
        assert(s.take(k) =~= s);
    } else {
        assert(s.drop_last().take(k) =~= s.take(k));
        lemma_digits_value_prefix(s.drop_last(), k);
    }
}

/// Reads a `u32` in decimal notation.
pub fn parse_u32(s: &str) -> (r: Option<u32>)
    ensures
        r == parse_u32_spec(s@),
{
    let n: usize = s.unicode_len();
    let mut acc: u64 = 0;
    let mut k: usize = 0;
    let mut start: usize = 0;
    for c in it: s.chars()
        invariant
            it.seq() == s@,
            s@.len() == n,
            k == it.index(),
            start <= 1,
            start <= k,
            start == 1 ==> s@[0] == '+',
            start == 0 && k > 0 ==> s@[0] != '+',
            all_digits(s@.subrange(start as int, k as int)),
            acc == digits_value(s@.subrange(start as int, k as int)),
            acc <= u32::MAX,
    {
        let ghost body = unsigned_digits(s@);
        if k == 0 && c == '+' {
            start = 1;
            assert(s@.subrange(1, 1) =~= Seq::<char>::empty());
        } else if '0' <= c && c <= '9' {
            let d: u64 = (c as u64) - 48;
            let ghost before = s@.subrange(start as int, k as int);
            let ghost after = s@.subrange(start as int, k + 1);
            assert(after.drop_last() =~= before);
            assert(after.last() == c);
            acc = acc * 10 + d;
            assert(acc == digits_value(after));
            if acc > 0xffff_ffff {
                proof {
                    assert(body.take(k + 1 - start) =~= after);
                    lemma_digits_value_prefix(body, k + 1 - start);
                }
                return None;
            }
        } else {
            assert(body[k - start] == c);
            return None;
        }
        k += 1;
    }
    assert(s@.subrange(start as int, n as int) =~= unsigned_digits(s@));
    if n == start {
        None
    } else {
        Some(acc as u32)
    }
}

// ---------------------------------------------------------------------------
// Whitespace
// ---------------------------------------------------------------------------

/// Whether `c` is white space, as `char::is_whitespace` says.
pub uninterp spec fn white_space(c: char) -> bool;

/// Calls `char::is_whitespace`, the Unicode `White_Space` test of the standard
/// library. The contract gives that test its name in specifications and
/// claims nothing about which characters pass it.
#[verifier::external_body]
fn is_whitespace(c: char) -> (r: bool)
    ensures
        r == white_space(c),
{
    c.is_whitespace()
}

/// How many characters of white space `s` begins with.
pub open spec fn leading_white(s: Seq<char>) -> nat
    decreases s.len(),
{
    if s.len() > 0 && white_space(s[0]) {
        1 + leading_white(s.drop_first())
    } else {
        0
    }
}

/// How many characters of white space `s` ends with.
pub open spec fn trailing_white(s: Seq<char>) -> nat
    decreases s.len(),
{
    if s.len() > 0 && white_space(s.last()) {
        1 + trailing_white(s.drop_last())
    } else {
        0
    }
}

/// How many characters other than white space `s` begins with.
pub open spec fn leading_black(s: Seq<char>) -> nat
    decreases s.len(),
{
    if s.len() > 0 && !white_space(s[0]) {
        1 + leading_black(s.drop_first())
    } else {
        0
    }
}

/// `s` without the white space at either end.
pub open spec fn trimmed(s: Seq<char>) -> Seq<char> {
    let a = leading_white(s);
    let b = s.len() - trailing_white(s);
    if a < b {
        s.subrange(a as int, b)
    } else {
        Seq::empty()
    }
}

/// The first whitespace-delimited field of `s`, if it has one.
pub open spec fn first_token(s: Seq<char>) -> Option<Seq<char>> {
    let a = leading_white(s);
    if a < s.len() {
        Some(s.subrange(a as int, (a + leading_black(s.skip(a as int))) as int))
    } else {
        None
    }
}

proof fn lemma_leading_white(s: Seq<char>, a: int)
    requires
        0 <= a <= s.len(),
        forall|j: int| 0 <= j < a ==> white_space(#[trigger] s[j]),
        a == s.len() || !white_space(s[a]),
    ensures
        leading_white(s) == a,
    decreases a,
{
    if a > 0 {
        let t = s.drop_first();
        assert forall|j: int| 0 <= j < a - 1 implies white_space(#[trigger] t[j]) by {
            assert(t[j] == s[j + 1]);
        }
        lemma_leading_white(t, a - 1);
    }
}

proof fn lemma_leading_black(s: Seq<char>, a: int)
    requires
        0 <= a <= s.len(),
        forall|j: int| 0 <= j < a ==> !white_space(#[trigger] s[j]),
        a == s.len() || white_space(s[a]),
    ensures
        leading_black(s) == a,
    decreases a,
{
    if a > 0 {
        let t = s.drop_first();
        assert forall|j: int| 0 <= j < a - 1 implies !white_space(#[trigger] t[j]) by {
            assert(t[j] == s[j + 1]);
        }
        lemma_leading_black(t, a - 1);
    }
}

proof fn lemma_trailing_white(s: Seq<char>, b: int)
    requires
        0 <= b <= s.len(),
        forall|j: int| b <= j < s.len() ==> white_space(#[trigger] s[j]),
        b == 0 || !white_space(s[b - 1]),
    ensures
        trailing_white(s) == s.len() - b,
    decreases s.len() - b,
{
    if b < s.len() {
        let t = s.drop_last();
        assert forall|j: int| b <= j < t.len() implies white_space(#[trigger] t[j]) by {
            assert(t[j] == s[j]);
        }
        lemma_trailing_white(t, b);
    }
}

/// `s` without the white space at either end.
pub fn trim(s: &str) -> (r: &str)
    ensures
        r@ == trimmed(s@),
{
    let n: usize = s.unicode_len();
    let mut start: usize = 0;
    let mut end: usize = 0;
    let mut k: usize = 0;
    for c in it: s.chars()
        invariant
            it.seq() == s@,
            s@.len() == n,
            k == it.index(),
            start <= k,
            end <= k,
            forall|j: int| 0 <= j < start ==> white_space(#[trigger] s@[j]),
            forall|j: int| end <= j < k ==> white_space(#[trigger] s@[j]),
            end == 0 ==> start == k,
            end > 0 ==> start < end && !white_space(s@[start as int]) && !white_space(
                s@[end - 1],
            ),
    {
        if is_whitespace(c) {
            if end == 0 {
                start += 1;
            }
        } else {
            end = k + 1;
        }
        k += 1;
    }
    proof {
        lemma_leading_white(s@, start as int);
        lemma_trailing_white(s@, end as int);
    }
    if end == 0 {
        let r = s.substring_char(0, 0);
        assert(r@ =~= Seq::<char>::empty());
        r
    } else {
        s.substring_char(start, end)
    }
}

/// The first whitespace-delimited field of `s`, if it has one.
pub fn first_word(s: &str) -> (r: Option<&str>)
    ensures
        r is Some == first_token(s@) is Some,
        r is Some ==> r->0@ == first_token(s@)->0,
{
    let n: usize = s.unicode_len();
    let mut start: usize = 0;
    let mut end: usize = 0;
    let mut inside = false;
    let mut closed = false;
    let mut k: usize = 0;
    for c in it: s.chars()
        invariant
            it.seq() == s@,
            s@.len() == n,
            k == it.index(),
            start <= end <= k,
            forall|j: int| 0 <= j < start ==> white_space(#[trigger] s@[j]),
            forall|j: int| start <= j < end ==> !white_space(#[trigger] s@[j]),
            !inside ==> start == k && end == k && !closed,
            inside ==> start < end,
            inside && !closed ==> end == k,
            closed ==> inside && end < k && white_space(s@[end as int]),
    {
        if !closed {
            if is_whitespace(c) {
                if inside {
                    closed = true;
                } else {
                    start += 1;
                    end += 1;
                }
            } else {
                inside = true;
                end = k + 1;
            }
        }
        k += 1;
    }
    proof {
        lemma_leading_white(s@, start as int);
        let rest = s@.skip(start as int);
        assert forall|j: int| 0 <= j < end - start implies !white_space(#[trigger] rest[j]) by {
            assert(rest[j] == s@[start + j]);
        }
        lemma_leading_black(rest, end - start);
    }
    if inside {
        Some(s.substring_char(start, end))
    } else {
        None
    }
}

} // verus!

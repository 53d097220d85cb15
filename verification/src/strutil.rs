//! Verified text helpers: decimal rendering and padding, digit parsing, and
//! character and substring search.

use vstd::prelude::*;
use vstd::string::StrSliceExecFns;
use vstd::string::StringExecFns;

verus! {

/// The character for a single decimal digit.
pub open spec fn digit_char(d: nat) -> char {
    if d == 0 {
        '0'
    } else if d == 1 {
        '1'
    } else if d == 2 {
        '2'
    } else if d == 3 {
        '3'
    } else if d == 4 {
        '4'
    } else if d == 5 {
        '5'
    } else if d == 6 {
        '6'
    } else if d == 7 {
        '7'
    } else if d == 8 {
        '8'
    } else {
        '9'
    }
}

/// Decimal representation of a natural number, most significant digit first.
pub open spec fn spec_dec(n: nat) -> Seq<char>
    decreases n,
{
    if n < 10 {
        seq![digit_char(n)]
    } else {
        spec_dec(n / 10).push(digit_char(n % 10))
    }
}

/// A run of `w` zero characters.
pub open spec fn spec_zeros(w: nat) -> Seq<char>
    decreases w,
{
    if w == 0 {
        Seq::empty()
    } else {
        spec_zeros((w - 1) as nat).push('0')
    }
}

/// Decimal representation left-padded with zeros to width `w`.
pub open spec fn spec_dec_pad(n: nat, w: nat) -> Seq<char> {
    if spec_dec(n).len() >= w {
        spec_dec(n)
    } else {
        spec_zeros((w - spec_dec(n).len()) as nat) + spec_dec(n)
    }
}

/// Relies on std's String::push: appends the one character to the string.
#[verifier::external_body]
pub fn push_char(s: &mut String, c: char)
    ensures
        final(s)@ == old(s)@.push(c),
{
    s.push(c);
}

fn digit_exec(d: u64) -> (c: char)
    requires
        d < 10,
    ensures
        c == digit_char(d as nat),
{
    if d == 0 {
        '0'
    } else if d == 1 {
        '1'
    } else if d == 2 {
        '2'
    } else if d == 3 {
        '3'
    } else if d == 4 {
        '4'
    } else if d == 5 {
        '5'
    } else if d == 6 {
        '6'
    } else if d == 7 {
        '7'
    } else if d == 8 {
        '8'
    } else {
        '9'
    }
}

/// Writes the decimal digits of `n` onto the end of `out`.
pub fn append_dec(out: &mut String, n: u64)
    ensures
        final(out)@ == old(out)@ + spec_dec(n as nat),
    decreases n,
{
    if n < 10 {
        push_char(out, digit_exec(n));
        proof {
            assert(out@ =~= old(out)@ + spec_dec(n as nat));
        }
    } else {
        append_dec(out, n / 10);
        push_char(out, digit_exec(n % 10));
        proof {
            assert(out@ =~= old(out)@ + spec_dec(n as nat));
        }
    }
}

/// The decimal digits of `n` as a string.
pub fn u64_dec(n: u64) -> (r: String)
    ensures
        r@ == spec_dec(n as nat),
{
    let mut s = String::new();
    append_dec(&mut s, n);
    proof {
        assert(s@ =~= spec_dec(n as nat));
    }
    s
}

/// Writes `n` in decimal, left-padded with zeros to width `w`, onto the end of `out`.
pub fn append_dec_pad(out: &mut String, n: u64, w: usize)
    ensures
        final(out)@ == old(out)@ + spec_dec_pad(n as nat, w as nat),
{
    let digits = u64_dec(n);
    let len = digits.as_str().unicode_len();
    if len >= w {
        out.append(digits.as_str());
        proof {
            assert(out@ =~= old(out)@ + spec_dec_pad(n as nat, w as nat));
        }
    } else {
        let ghost mid = out@;
        let mut i: usize = 0;
        while i < w - len
            invariant
                i <= w - len,
                out@ == mid + spec_zeros(i as nat),
            decreases w - len - i,
        {
            push_char(out, '0');
            proof {
                assert(mid + spec_zeros(i as nat) + seq!['0'] =~= mid + spec_zeros(
                    (i + 1) as nat,
                ));
                assert(out@ =~= mid + spec_zeros(i as nat) + seq!['0']);
            }
            i += 1;
        }
        out.append(digits.as_str());
        proof {
            assert(out@ =~= old(out)@ + spec_dec_pad(n as nat, w as nat));
        }
    }
}

/// True when `c` occurs in `s`.
pub fn contains_char(s: &str, c: char) -> (b: bool)
    ensures
        b == s@.contains(c),
{
    let n = s.unicode_len();
    let mut i: usize = 0;
    while i < n
        invariant
            n == s@.len(),
            i <= n,
            forall|j: int| 0 <= j < i ==> s@[j] != c,
        decreases n - i,
    {
        if s.get_char(i) == c {
            assert(s@.contains(c));
            return true;
        }
        i += 1;
    }
    assert(!s@.contains(c));
    false
}

/// A decimal digit character.
pub open spec fn is_digit(c: char) -> bool {
    '0' <= c && c <= '9'
}

/// The value of a decimal digit character.
pub open spec fn digit_val(c: char) -> nat
    recommends
        is_digit(c),
{
    ((c as int) - ('0' as int)) as nat
}

/// Every character is a decimal digit.
pub open spec fn all_digits(s: Seq<char>) -> bool {
    forall|i: int| 0 <= i < s.len() ==> is_digit(#[trigger] s[i])
}

/// The number that a run of decimal digits denotes.
pub open spec fn digits_val(s: Seq<char>) -> nat
    decreases s.len(),
{
    if s.len() == 0 {
        0
    } else {
        digits_val(s.drop_last()) * 10 + digit_val(s.last())
    }
}

/// The digits of a number: what stands after an optional leading plus sign.
pub open spec fn parse_body(s: Seq<char>) -> Seq<char> {
    if s.len() > 0 && s[0] == '+' {
        s.drop_first()
    } else {
        s
    }
}

/// What `u16` parsing accepts: an optional leading plus sign, then at least one
/// digit, denoting a value that fits.
pub open spec fn spec_parse_u16(s: Seq<char>) -> Option<u16> {
    if parse_body(s).len() > 0 && all_digits(parse_body(s)) && digits_val(parse_body(s)) <= 65535 {
        Some(digits_val(parse_body(s)) as u16)
    } else {
        None
    }
}

proof fn lemma_digits_val_prefix(s: Seq<char>, j: int)
    requires
        0 <= j <= s.len(),
    ensures
        digits_val(s.take(j)) <= digits_val(s),
    decreases s.len() - j,
{
    if j == s.len() {
        assert(s.take(j) =~= s);
    } else {
        assert(s.take(j + 1).drop_last() =~= s.take(j));
        lemma_digits_val_prefix(s, j + 1);
    }
}

/// Reads a number as `u16` parsing does: an optional plus sign, then digits.
pub fn parse_u16(s: &str) -> (r: Option<u16>)
    ensures
        r == spec_parse_u16(s@),
{
    let n = s.unicode_len();
    let start: usize = if n > 0 && s.get_char(0) == '+' {
        1
    } else {
        0
    };
    let ghost body = parse_body(s@);
    assert(body =~= s@.subrange(start as int, n as int));
    if start == n {
        return None;
    }
    let mut acc: u32 = 0;
    let mut i: usize = start;
    while i < n
        invariant
            n == s@.len(),
            start <= i <= n,
            start < n,
            body == parse_body(s@),
            body == s@.subrange(start as int, n as int),
            acc <= 65535,
            acc == digits_val(body.take(i - start)),
            forall|k: int| 0 <= k < i - start ==> is_digit(#[trigger] body[k]),
        decreases n - i,
    {
        let c = s.get_char(i);
        assert(body[i - start] == s@[i as int]);
        if c < '0' || c > '9' {
            proof {
                assert(!is_digit(body[i - start]));
                assert(!all_digits(body));
            }
            return None;
        }
        let d: u32 = (c as u32) - ('0' as u32);
        acc = acc * 10 + d;
        proof {
            assert(body.take(i - start + 1).drop_last() =~= body.take(i - start));
            assert(body.take(i - start + 1).last() == body[i - start]);
        }
        if acc > 65535 {
            proof {
                lemma_digits_val_prefix(body, i - start + 1);
            }
            return None;
        }
        i += 1;
    }
    proof {
        assert(body.take(n - start) =~= body);
    }
    Some(acc as u16)
}

/// True when the characters of `p` stand in `s` starting at `i`.
pub open spec fn substr_at(s: Seq<char>, p: Seq<char>, i: int) -> bool {
    0 <= i && i + p.len() <= s.len() && s.subrange(i, i + p.len() as int) == p
}

/// True when `p` occurs in `s` as a contiguous run.
pub open spec fn has_substr(s: Seq<char>, p: Seq<char>) -> bool {
    exists|i: int| #[trigger] substr_at(s, p, i)
}

fn substr_match_at(s: &str, p: &str, i: usize) -> (b: bool)
    requires
        i + p@.len() <= s@.len(),
        s@.len() <= usize::MAX,
    ensures
        b == substr_at(s@, p@, i as int),
{
    let m = p.unicode_len();
    let mut j: usize = 0;
    while j < m
        invariant
            m == p@.len(),
            i + m <= s@.len(),
            s@.len() <= usize::MAX,
            j <= m,
            forall|k: int| 0 <= k < j ==> s@[i + k] == p@[k],
        decreases m - j,
    {
        if s.get_char(i + j) != p.get_char(j) {
            assert(s@.subrange(i as int, i + m) != p@) by {
                assert(s@.subrange(i as int, i + m)[j as int] == s@[i + j]);
            }
            return false;
        }
        j += 1;
    }
    proof {
        assert(s@.subrange(i as int, i + m) =~= p@);
    }
    true
}

/// True when `p` occurs in `s` as a contiguous run of characters.
pub fn contains_substr(s: &str, p: &str) -> (b: bool)
    ensures
        b == has_substr(s@, p@),
{
    let n = s.unicode_len();
    let m = p.unicode_len();
    if m > n {
        assert(!has_substr(s@, p@));
        return false;
    }
    if m == 0 {
        assert(substr_at(s@, p@, 0)) by {
            assert(s@.subrange(0, 0) =~= p@);
        }
        return true;
    }
    let mut i: usize = 0;
    while i <= n - m
        invariant
            n == s@.len(),
            m == p@.len(),
            1 <= m <= n,
            i <= n - m + 1,
            forall|k: int| 0 <= k < i ==> !substr_at(s@, p@, k),
        decreases n - i,
    {
        if substr_match_at(s, p, i) {
            assert(has_substr(s@, p@));
            return true;
        }
        i += 1;
    }
    assert(!has_substr(s@, p@));
    false
}

} // verus!

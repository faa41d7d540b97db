//! The text format of a brightness control: a decimal number, possibly
//! surrounded by whitespace on read, written back as bare decimal digits.
//! The surrounding process does the file I/O and hands the bytes here.

use vstd::prelude::*;
use crate::errors::AccessError;

verus! {

/// ASCII whitespace, as trimmed from a control's content. The trim is
/// deliberately ASCII-only: a control holds decimal digits and ASCII
/// whitespace, so Unicode whitespace never occurs in well-formed content,
/// and malformed content is rejected as a parse error either way.
pub open spec fn is_space_byte(b: u8) -> bool {
    b == 32 || b == 9 || b == 10 || b == 13 || b == 11 || b == 12
}

/// An ASCII decimal digit.
pub open spec fn is_digit_byte(b: u8) -> bool {
    48 <= b && b <= 57
}

/// The numeric value of one digit byte.
pub open spec fn digit_val(b: u8) -> int {
    b - 48
}

/// The content with leading whitespace removed.
pub open spec fn trim_front(s: Seq<u8>) -> Seq<u8>
    decreases s.len(),
{
    if s.len() > 0 && is_space_byte(s[0]) {
        trim_front(s.skip(1))
    } else {
        s
    }
}

/// The content with trailing whitespace removed.
pub open spec fn trim_back(s: Seq<u8>) -> Seq<u8>
    decreases s.len(),
{
    if s.len() > 0 && is_space_byte(s.last()) {
        trim_back(s.drop_last())
    } else {
        s
    }
}

/// The content with whitespace removed on both sides.
pub open spec fn trimmed(s: Seq<u8>) -> Seq<u8> {
    trim_back(trim_front(s))
}

/// Whether every byte is a decimal digit.
pub open spec fn all_digits(s: Seq<u8>) -> bool {
    forall|i: int| 0 <= i < s.len() ==> is_digit_byte(s[i])
}

/// The value of a digit string, most significant digit first.
pub open spec fn digits_val(s: Seq<u8>) -> int
    decreases s.len(),
{
    if s.len() == 0 {
        0
    } else {
        digits_val(s.drop_last()) * 10 + digit_val(s.last())
    }
}

/// Whether the content parses as a `u32`: after trimming, at least one byte,
/// all digits, and a value within range.
pub open spec fn valid_number(s: Seq<u8>) -> bool {
    let t = trimmed(s);
    t.len() > 0 && all_digits(t) && digits_val(t) <= u32::MAX
}

/// The decimal digits of a number, most significant first, no sign and no
/// leading zeros (a single zero for zero itself).
pub open spec fn dec_bytes(n: nat) -> Seq<u8>
    decreases n,
{
    if n < 10 {
        seq![(48 + n) as u8]
    } else {
        dec_bytes(n / 10).push((48 + n % 10) as u8)
    }
}

proof fn lemma_trim_front_skip(s: Seq<u8>, k: int)
    requires
        0 <= k <= s.len(),
        forall|j: int| 0 <= j < k ==> is_space_byte(s[j]),
        k == s.len() || !is_space_byte(s[k]),
    ensures
        trim_front(s) == s.skip(k),
    decreases k,
{
    if k == 0 {
        assert(s.skip(0) =~= s);
    } else {
        lemma_trim_front_skip(s.skip(1), k - 1);
        assert(s.skip(1).skip(k - 1) =~= s.skip(k));
    }
}

proof fn lemma_trim_back_take(s: Seq<u8>, e: int)
    requires
        0 <= e <= s.len(),
        forall|j: int| e <= j < s.len() ==> is_space_byte(s[j]),
        e == 0 || !is_space_byte(s[e - 1]),
    ensures
        trim_back(s) == s.take(e),
    decreases s.len(),
{
    if e == s.len() {
        assert(s.take(e) =~= s);
    } else {
        lemma_trim_back_take(s.drop_last(), e);
        assert(s.drop_last().take(e) =~= s.take(e));
    }
}

proof fn lemma_trimmed_subrange(s: Seq<u8>, start: int, end: int)
    requires
        0 <= start <= end <= s.len(),
        forall|j: int| 0 <= j < start ==> is_space_byte(s[j]),
        forall|j: int| end <= j < s.len() ==> is_space_byte(s[j]),
        start == s.len() || !is_space_byte(s[start]),
        end == start || !is_space_byte(s[end - 1]),
    ensures
        trimmed(s) == s.subrange(start, end),
{
    lemma_trim_front_skip(s, start);
    let f = s.skip(start);
    lemma_trim_back_take(f, end - start);
    assert(f.take(end - start) =~= s.subrange(start, end));
}

/// Digit strings have non-negative values.
proof fn lemma_digits_val_nonneg(s: Seq<u8>)
    requires
        all_digits(s),
    ensures
        digits_val(s) >= 0,
    decreases s.len(),
{
    if s.len() > 0 {
        lemma_digits_val_nonneg(s.drop_last());
    }
}

proof fn lemma_dec_bytes_digits(n: nat)
    ensures
        dec_bytes(n).len() > 0,
        all_digits(dec_bytes(n)),
    decreases n,
{
    if n >= 10 {
        lemma_dec_bytes_digits(n / 10);
    }
}

proof fn lemma_dec_bytes_val(n: nat)
    ensures
        digits_val(dec_bytes(n)) == n,
    decreases n,
{
    if n < 10 {
        assert(dec_bytes(n).drop_last() =~= Seq::<u8>::empty());
        assert(dec_bytes(n).last() == (48 + n) as u8);
        assert((48 + n) as u8 == 48 + n);
        assert(digits_val(dec_bytes(n)) == digits_val(Seq::<u8>::empty()) * 10 + digit_val(
            (48 + n) as u8,
        ));
    } else {
        lemma_dec_bytes_val(n / 10);
        assert(dec_bytes(n).drop_last() =~= dec_bytes(n / 10));
        assert(dec_bytes(n).last() == (48 + n % 10) as u8);
        assert(n % 10 < 10);
        assert((48 + n % 10) as u8 == 48 + n % 10);
        assert(digits_val(dec_bytes(n)) == digits_val(dec_bytes(n / 10)) * 10 + digit_val(
            (48 + n % 10) as u8,
        ));
        assert(10 * ((n as int) / 10) + (n as int) % 10 == n as int) by (nonlinear_arith);
    }
}

/// Round trip: the digits that `encode_value` writes for a value always
/// parse back, and back to that very value.
pub proof fn lemma_encode_parse_round_trip(v: u32)
    ensures
        valid_number(dec_bytes(v as nat)),
        digits_val(trimmed(dec_bytes(v as nat))) == v as int,
{
    let s = dec_bytes(v as nat);
    lemma_dec_bytes_digits(v as nat);
    lemma_dec_bytes_val(v as nat);
    assert(!is_space_byte(s[0]));
    assert(trim_front(s) == s);
    assert(!is_space_byte(s.last()));
    assert(trim_back(s) == s);
}

fn byte_is_space(b: u8) -> (r: bool)
    ensures
        r == is_space_byte(b),
{
    b == 32 || b == 9 || b == 10 || b == 13 || b == 11 || b == 12
}

/// Parses a control's content: trims ASCII whitespace, then reads the
/// decimal value; any other shape, and any value above `u32::MAX`, is a
/// parse error.
pub fn parse_value(text: &[u8]) -> (r: Result<u32, AccessError>)
    ensures
        valid_number(text@) ==> r == Ok::<u32, AccessError>(digits_val(trimmed(text@)) as u32),
        !valid_number(text@) ==> r == Err::<u32, AccessError>(AccessError::ParseError),
{
    let n = text.len();
    let mut start: usize = 0;
    while start < n && byte_is_space(text[start])
        invariant
            start <= n,
            n == text@.len(),
            forall|j: int| 0 <= j < start ==> is_space_byte(text@[j]),
        decreases n - start,
    {
        start += 1;
    }
    let mut end: usize = n;
    while end > start && byte_is_space(text[end - 1])
        invariant
            start <= end <= n,
            n == text@.len(),
            forall|j: int| end <= j < n ==> is_space_byte(text@[j]),
        decreases end,
    {
        end -= 1;
    }
    proof {
        lemma_trimmed_subrange(text@, start as int, end as int);
    }
    let ghost t: Seq<u8> = text@.subrange(start as int, end as int);
    if start == end {
        return Err(AccessError::ParseError);
    }
    let mut acc: u64 = 0;
    let mut i = start;
    proof {
        assert(t.take(0) =~= Seq::<u8>::empty());
    }
    while i < end
        invariant
            start <= i <= end <= n,
            n == text@.len(),
            t == text@.subrange(start as int, end as int),
            trimmed(text@) == t,
            all_digits(t.take(i - start)),
            (acc <= u32::MAX && acc as int == digits_val(t.take(i - start))) || (acc
                == 0x1_0000_0000u64 && digits_val(t.take(i - start)) > u32::MAX),
        decreases end - i,
    {
        let b = text[i];
        if b < 48 || b > 57 {
            proof {
                assert(t[i - start] == text@[i as int]);
                assert(!all_digits(t));
            }
            return Err(AccessError::ParseError);
        }
        let d = (b - 48) as u64;
        proof {
            assert(t.take(i - start + 1).drop_last() =~= t.take(i - start));
            assert(t.take(i - start + 1).last() == t[i - start]);
            assert(t[i - start] == text@[i as int]);
            lemma_digits_val_nonneg(t.take(i - start));
        }
        if acc <= 0xFFFF_FFFFu64 {
            acc = acc * 10 + d;
            if acc > 0xFFFF_FFFFu64 {
                acc = 0x1_0000_0000u64;
            }
        }
        i += 1;
    }
    proof {
        assert(t.take(end - start) =~= t);
    }
    if acc > 0xFFFF_FFFFu64 {
        return Err(AccessError::ParseError);
    }
    Ok(acc as u32)
}

/// Renders a brightness value as the decimal digits that are written to a
/// control, no sign, no padding, no trailing newline.
pub fn encode_value(v: u32) -> (r: Vec<u8>)
    ensures
        r@ == dec_bytes(v as nat),
{
    let mut out: Vec<u8> = Vec::new();
    let mut x = v;
    proof {
        assert(dec_bytes(v as nat) + Seq::<u8>::empty() =~= dec_bytes(v as nat));
    }
    loop
        invariant_except_break
            dec_bytes(v as nat) == dec_bytes(x as nat) + out@,
        ensures
            dec_bytes(v as nat) == out@,
        decreases x,
    {
        let d: u8 = (x % 10) as u8 + 48;
        let ghost before = out@;
        out.insert(0, d);
        proof {
            assert(out@ =~= seq![d] + before);
        }
        if x < 10 {
            proof {
                assert(x % 10 == x) by (nonlinear_arith)
                    requires 0 <= x < 10;
                assert(dec_bytes(x as nat) =~= seq![d]);
                assert(dec_bytes(x as nat) + before =~= out@);
            }
            break;
        }
        proof {
            assert(x / 10 < x && x / 10 >= 1) by (nonlinear_arith)
                requires x >= 10;
            assert(dec_bytes(x as nat) =~= dec_bytes((x as nat) / 10).push(
                (48 + (x as nat) % 10) as u8,
            ));
            assert((x as nat) / 10 == (x / 10) as nat);
            assert((48 + (x as nat) % 10) as u8 == d);
            assert(dec_bytes((x / 10) as nat) + out@ =~= dec_bytes(x as nat) + before);
        }
        x = x / 10;
    }
    out
}

} // verus!

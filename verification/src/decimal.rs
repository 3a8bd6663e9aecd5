//! Decimal wire format for unsigned integers: digits only, most significant
//! first. Parsing accepts leading zeros; printing never produces them.

use vstd::prelude::*;

verus! {

/// A decimal digit as it appears on the wire.
pub open spec fn is_digit_char(c: char) -> bool {
    48 <= c as int <= 57
}

pub open spec fn all_digit_chars(s: Seq<char>) -> bool {
    forall|i: int| 0 <= i < s.len() ==> is_digit_char(#[trigger] s[i])
}

pub open spec fn digit_val(c: char) -> int {
    c as int - 48
}

pub open spec fn digit_char(d: int) -> char {
    (d + 48) as char
}

/// Numeric value of a digit string, most significant digit first.
pub open spec fn digits_val(s: Seq<char>) -> int
    decreases s.len(),
{
    if s.len() == 0 {
        0
    } else {
        digits_val(s.drop_last()) * 10 + digit_val(s.last())
    }
}

/// The canonical digit string of `n`: no leading zeros.
pub open spec fn spec_u32_digits(n: nat) -> Seq<char>
    decreases n,
{
    if n < 10 {
        seq![digit_char(n as int)]
    } else {
        spec_u32_digits(n / 10).push(digit_char((n % 10) as int))
    }
}

/// What decoding a decimal field yields: the value, or nothing when the text
/// is empty, holds a non-digit, or does not fit in `u32`.
pub open spec fn spec_parse_u32(s: Seq<char>) -> Option<u32> {
    if s.len() > 0 && all_digit_chars(s) && digits_val(s) <= u32::MAX {
        Some(digits_val(s) as u32)
    } else {
        None
    }
}

proof fn lemma_digit_char_val(d: int)
    requires
        0 <= d < 10,
    ensures
        is_digit_char(digit_char(d)),
        digit_val(digit_char(d)) == d,
{
}

proof fn lemma_u32_digits_val(n: nat)
    ensures
        digits_val(spec_u32_digits(n)) == n,
        all_digit_chars(spec_u32_digits(n)),
        spec_u32_digits(n).len() > 0,
    decreases n,
{
    if n < 10 {
        lemma_digit_char_val(n as int);
        let s = spec_u32_digits(n);
        assert(s.last() == digit_char(n as int));
        assert(s.drop_last() =~= Seq::<char>::empty());
        assert(digits_val(s) == digits_val(s.drop_last()) * 10 + digit_val(s.last()));
        assert(forall|i: int| 0 <= i < s.len() ==> is_digit_char(#[trigger] s[i]));
    } else {
        lemma_u32_digits_val(n / 10);
        lemma_digit_char_val((n % 10) as int);
        let s = spec_u32_digits(n);
        assert(s.last() == digit_char((n % 10) as int));
        assert(s.drop_last() =~= spec_u32_digits(n / 10));
        assert(digits_val(s) == (n / 10) * 10 + (n % 10));
        assert(forall|i: int| 0 <= i < s.len() ==> is_digit_char(#[trigger] s[i]));
    }
}

/// Printing then parsing gives the value back.
pub proof fn lemma_u32_roundtrip(n: u32)
    ensures
        spec_parse_u32(spec_u32_digits(n as nat)) == Some(n),
{
    lemma_u32_digits_val(n as nat);
}

/// Appending a digit multiplies the value by ten and adds the digit.
proof fn lemma_digits_val_push(s: Seq<char>, c: char)
    ensures
        digits_val(s.push(c)) == digits_val(s) * 10 + digit_val(c),
{
    assert(s.push(c).drop_last() =~= s);
}

/// A digit string is worth at least its prefix.
proof fn lemma_digits_val_prefix_le(s: Seq<char>, i: int)
    requires
        0 <= i <= s.len(),
        all_digit_chars(s),
        digits_val(s.take(i)) >= 0,
    ensures
        digits_val(s) >= digits_val(s.take(i)),
    decreases s.len() - i,
{
    if i < s.len() {
        lemma_digits_val_push(s.take(i), s[i]);
        assert(s.take(i + 1) =~= s.take(i).push(s[i]));
        assert(digits_val(s.take(i + 1)) >= digits_val(s.take(i)));
        lemma_digits_val_prefix_le(s, i + 1);
    } else {
        assert(s.take(i) =~= s);
    }
}

proof fn lemma_digits_val_nonneg(s: Seq<char>, i: int)
    requires
        0 <= i <= s.len(),
        all_digit_chars(s),
    ensures
        digits_val(s.take(i)) >= 0,
    decreases i,
{
    if i > 0 {
        lemma_digits_val_nonneg(s, i - 1);
        assert(s.take(i).drop_last() =~= s.take(i - 1));
        assert(s.take(i).last() == s[i - 1]);
    }
}

fn digit_of(d: u32) -> (c: char)
    requires
        d < 10,
    ensures
        c == digit_char(d as int),
        is_digit_char(c),
{
    proof {
        lemma_digit_char_val(d as int);
    }
    ((48 + d) as u8) as char
}

/// Render `n` in the decimal wire format.
pub fn u32_to_string(n: u32) -> (r: String)
    ensures
        r@ == spec_u32_digits(n as nat),
        spec_parse_u32(r@) == Some(n),
    decreases n,
{
    proof {
        lemma_u32_roundtrip(n);
    }
    if n < 10 {
        let mut s = String::new();
        s.push(digit_of(n));
        s
    } else {
        let mut s = u32_to_string(n / 10);
        s.push(digit_of(n % 10));
        s
    }
}

/// Parse a decimal field.
pub fn parse_u32(s: &str) -> (r: Option<u32>)
    ensures
        r == spec_parse_u32(s@),
{
    let n = s.unicode_len();
    if n == 0 {
        return None;
    }
    let mut val: u32 = 0;
    let mut i: usize = 0;
    while i < n
        invariant
            0 < n == s@.len(),
            0 <= i <= n,
            all_digit_chars(s@.take(i as int)),
            val == digits_val(s@.take(i as int)),
        decreases n - i,
    {
        let c = s.get_char(i);
        let cv = c as u32;
        if cv < 48 || cv > 57 {
            assert(!is_digit_char(s@[i as int]));
            return None;
        }
        let d = cv - 48;
        proof {
            lemma_digits_val_push(s@.take(i as int), s@[i as int]);
            assert(s@.take(i as int + 1) =~= s@.take(i as int).push(s@[i as int]));
        }
        if val > (u32::MAX - d) / 10 {
            // the value already exceeds u32 no matter what follows
            proof {
                assert(val * 10 + d > u32::MAX) by (nonlinear_arith)
                    requires
                        val > (u32::MAX - d) / 10,
                        0 <= d < 10,
                ;
                if all_digit_chars(s@) {
                    lemma_digits_val_nonneg(s@, i as int + 1);
                    lemma_digits_val_prefix_le(s@, i as int + 1);
                }
            }
            return None;
        }
        val = val * 10 + d;
        i = i + 1;
    }
    proof {
        assert(s@.take(n as int) =~= s@);
    }
    Some(val)
}

} // verus!

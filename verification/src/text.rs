//! Small helpers over `String` and `&str` used by the wire-format codecs.

use vstd::prelude::*;

verus! {

/// Relies on std's String::push: appends the given char to the end of the
/// string. vstd does not specify this method.
pub assume_specification[ String::push ](s: &mut String, c: char)
    ensures
        final(s)@ == old(s)@.push(c),
;

/// Relies on std's char::from_u32: the inverse of `as` casting a char to
/// u32, defined exactly on the Unicode scalar values (everything up to
/// 0x10FFFF except the surrogate range). vstd does not specify it.
pub assume_specification[ char::from_u32 ](v: u32) -> (r: Option<char>)
    ensures
        (r is Some) == (v < 0xD800 || (0xE000 <= v && v <= 0x10FFFF)),
        r matches Some(c) ==> c == v as char,
;

/// ASCII upper-case folding of one character; everything else is untouched.
pub open spec fn to_upper_char(c: char) -> char {
    if 97 <= c as int <= 122 {
        (c as int - 32) as char
    } else {
        c
    }
}

pub open spec fn spec_to_upper(s: Seq<char>) -> Seq<char> {
    s.map_values(|c: char| to_upper_char(c))
}

/// Folding twice folds once.
pub proof fn lemma_to_upper_idempotent(s: Seq<char>)
    ensures
        spec_to_upper(spec_to_upper(s)) == spec_to_upper(s),
{
    assert(spec_to_upper(spec_to_upper(s)) =~= spec_to_upper(s));
}

/// ASCII upper-case folding of a string.
pub fn str_to_upper(s: &str) -> (r: String)
    ensures
        r@ == spec_to_upper(s@),
{
    let n = s.unicode_len();
    let mut out = String::new();
    let mut i: usize = 0;
    while i < n
        invariant
            n == s@.len(),
            0 <= i <= n,
            out@ == spec_to_upper(s@.take(i as int)),
        decreases n - i,
    {
        let c = s.get_char(i);
        let cu = c as u32;
        if 97 <= cu && cu <= 122 {
            out.push(((cu - 32) as u8) as char);
        } else {
            out.push(c);
        }
        proof {
            assert(out@ =~= spec_to_upper(s@.take(i as int + 1)));
        }
        i = i + 1;
    }
    proof {
        assert(s@.take(n as int) =~= s@);
    }
    out
}

/// Character-by-character string equality.
pub fn str_eq(a: &str, b: &str) -> (r: bool)
    ensures
        r == (a@ == b@),
{
    let n = a.unicode_len();
    let m = b.unicode_len();
    if n != m {
        assert(a@ != b@) by {
            assert(a@.len() != b@.len());
        }
        return false;
    }
    let mut i: usize = 0;
    while i < n
        invariant
            n == a@.len() == b@.len(),
            0 <= i <= n,
            forall|j: int| 0 <= j < i ==> a@[j] == b@[j],
        decreases n - i,
    {
        if a.get_char(i) != b.get_char(i) {
            assert(a@ != b@);
            return false;
        }
        i = i + 1;
    }
    proof {
        assert(a@ =~= b@);
    }
    true
}

} // verus!

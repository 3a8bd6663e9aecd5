//! The query-string wire format at the character level: component escaping
//! (`+` for space, `%XX` for reserved ASCII) and splitting on separators.
//! The parameter schema built on top of it lives in `parameters`.

use vstd::prelude::*;
use vstd::utf8::is_ascii_chars;
use crate::decimal::{digit_char, is_digit_char};

verus! {

/// Characters that travel unescaped inside a query component.
pub open spec fn is_unreserved(c: char) -> bool {
    ||| is_digit_char(c)
    ||| 65 <= c as int <= 90
    ||| 97 <= c as int <= 122
    ||| c == '-'
    ||| c == '_'
    ||| c == '.'
    ||| c == '~'
}

/// Upper-case hex digit for a value below sixteen.
pub open spec fn hex_char(d: int) -> char {
    if d < 10 {
        digit_char(d)
    } else {
        (d + 55) as char
    }
}

/// Value of a hex digit of either case; anything else maps outside 0..16.
pub open spec fn hex_val(c: char) -> int {
    if 48 <= c as int <= 57 {
        c as int - 48
    } else if 65 <= c as int <= 70 {
        c as int - 55
    } else if 97 <= c as int <= 102 {
        c as int - 87
    } else {
        -1
    }
}

pub open spec fn is_hex_char(c: char) -> bool {
    hex_val(c) >= 0
}

/// How one character is escaped: unreserved characters pass, space becomes
/// `+`, other ASCII becomes `%XX`. Characters beyond ASCII pass untouched;
/// the decoder rejects them, and no value this crate emits contains any.
pub open spec fn spec_escape_char(c: char) -> Seq<char> {
    if is_unreserved(c) {
        seq![c]
    } else if c == ' ' {
        seq!['+']
    } else if (c as int) < 128 {
        seq!['%', hex_char(c as int / 16), hex_char(c as int % 16)]
    } else {
        seq![c]
    }
}

pub open spec fn spec_escape(s: Seq<char>) -> Seq<char>
    decreases s.len(),
{
    if s.len() == 0 {
        Seq::empty()
    } else {
        spec_escape_char(s[0]) + spec_escape(s.skip(1))
    }
}

/// Inverse of escaping: `+` back to space, `%XX` back to the ASCII
/// character; fails on a malformed or non-ASCII escape.
pub open spec fn spec_unescape(s: Seq<char>) -> Option<Seq<char>>
    decreases s.len(),
{
    if s.len() == 0 {
        Some(Seq::empty())
    } else if s[0] == '+' {
        match spec_unescape(s.skip(1)) {
            Some(t) => Some(seq![' '] + t),
            None => None,
        }
    } else if s[0] == '%' {
        if s.len() >= 3 && is_hex_char(s[1]) && is_hex_char(s[2]) && hex_val(s[1]) * 16 + hex_val(
            s[2],
        ) < 128 {
            match spec_unescape(s.skip(3)) {
                Some(t) => Some(seq![(hex_val(s[1]) * 16 + hex_val(s[2])) as char] + t),
                None => None,
            }
        } else {
            None
        }
    } else {
        match spec_unescape(s.skip(1)) {
            Some(t) => Some(seq![s[0]] + t),
            None => None,
        }
    }
}

proof fn lemma_hex_char_val(d: int)
    requires
        0 <= d < 16,
    ensures
        is_hex_char(hex_char(d)),
        hex_val(hex_char(d)) == d,
{
}

/// Every character an escape emits is ASCII and is neither `&` nor `=`,
/// so escaped components survive pair splitting, except that a character
/// beyond ASCII passes through as itself.
pub open spec fn escape_output_char_ok(c: char) -> bool {
    (c as int) < 128 && c != '&' && c != '='
}

proof fn lemma_escape_char_output(c: char)
    requires
        (c as int) < 128,
    ensures
        forall|j: int|
            0 <= j < spec_escape_char(c).len() ==> escape_output_char_ok(
                #[trigger] spec_escape_char(c)[j],
            ),
{
}

/// Escaping an ASCII string yields no separator characters.
pub proof fn lemma_escape_output(s: Seq<char>)
    requires
        is_ascii_chars(s),
    ensures
        forall|j: int|
            0 <= j < spec_escape(s).len() ==> escape_output_char_ok(#[trigger] spec_escape(s)[j]),
    decreases s.len(),
{
    if s.len() > 0 {
        assert('\0' <= s[0] <= '\u{7f}');
        assert(0 <= s[0] as int && (s[0] as int) < 128);
        lemma_escape_char_output(s[0]);
        assert(is_ascii_chars(s.skip(1))) by {
            assert(forall|i: int| 0 <= i < s.skip(1).len() ==> s.skip(1)[i] == s[i + 1]);
        };
        lemma_escape_output(s.skip(1));
        assert forall|j: int| 0 <= j < spec_escape(s).len() implies escape_output_char_ok(
            #[trigger] spec_escape(s)[j],
        ) by {
            let head = spec_escape_char(s[0]);
            if j < head.len() {
                assert(spec_escape(s)[j] == head[j]);
            } else {
                assert(spec_escape(s)[j] == spec_escape(s.skip(1))[j - head.len()]);
            }
        }
    }
}

/// Unescaping undoes escaping on ASCII input.
pub proof fn lemma_unescape_escape(s: Seq<char>)
    requires
        is_ascii_chars(s),
    ensures
        spec_unescape(spec_escape(s)) == Some(s),
    decreases s.len(),
{
    if s.len() == 0 {
        assert(spec_escape(s) =~= Seq::<char>::empty());
    } else {
        let c = s[0];
        let head = spec_escape_char(c);
        let tail = spec_escape(s.skip(1));
        let e = spec_escape(s);
        assert(e == head + tail);
        assert('\0' <= c <= '\u{7f}');
        assert(0 <= c as int && (c as int) < 128);
        assert(is_ascii_chars(s.skip(1))) by {
            assert(forall|i: int| 0 <= i < s.skip(1).len() ==> s.skip(1)[i] == s[i + 1]);
        };
        lemma_unescape_escape(s.skip(1));
        if is_unreserved(c) {
            assert(e[0] == c);
            assert(e.skip(1) =~= tail);
            assert(c != '+' && c != '%');
            assert(seq![c] + s.skip(1) =~= s);
        } else if c == ' ' {
            assert(e[0] == '+');
            assert(e.skip(1) =~= tail);
            assert(seq![' '] + s.skip(1) =~= s);
        } else {
            // c is ASCII here, so the `%XX` arm applies
            assert(e[0] == '%');
            assert(e[1] == hex_char(c as int / 16));
            assert(e[2] == hex_char(c as int % 16));
            lemma_hex_char_val(c as int / 16);
            lemma_hex_char_val(c as int % 16);
            assert(hex_val(e[1]) * 16 + hex_val(e[2]) == c as int);
            assert((c as int) as char == c);
            assert(e.skip(3) =~= tail);
            assert(seq![c] + s.skip(1) =~= s);
        }
    }
}

/// Escaping appends one character's escape at a time.
pub proof fn lemma_escape_push(s: Seq<char>, c: char)
    ensures
        spec_escape(s.push(c)) == spec_escape(s) + spec_escape_char(c),
    decreases s.len(),
{
    let p = s.push(c);
    assert(p.len() == s.len() + 1);
    if s.len() == 0 {
        assert(p[0] == c);
        assert(p.skip(1) =~= Seq::<char>::empty());
        assert(spec_escape(p) == spec_escape_char(c) + spec_escape(Seq::<char>::empty()));
        assert(spec_escape(s) == Seq::<char>::empty());
        assert(spec_escape_char(c) + Seq::<char>::empty() =~= Seq::<char>::empty()
            + spec_escape_char(c));
    } else {
        assert(p[0] == s[0]);
        assert(p.skip(1) =~= s.skip(1).push(c));
        assert(spec_escape(p) == spec_escape_char(s[0]) + spec_escape(s.skip(1).push(c)));
        lemma_escape_push(s.skip(1), c);
        assert(spec_escape_char(s[0]) + (spec_escape(s.skip(1)) + spec_escape_char(c)) =~= (
        spec_escape_char(s[0]) + spec_escape(s.skip(1))) + spec_escape_char(c));
    }
}

fn hex_of(d: u32) -> (c: char)
    requires
        d < 16,
    ensures
        c == hex_char(d as int),
{
    if d < 10 {
        ((48 + d) as u8) as char
    } else {
        ((55 + d) as u8) as char
    }
}

/// Escape one component of a query string.
///
/// Characters beyond ASCII pass through unescaped; every value this
/// library itself emits is ASCII.
pub fn escape_component(s: &str) -> (r: String)
    ensures
        r@ == spec_escape(s@),
{
    let n = s.unicode_len();
    let mut out = String::new();
    let mut i: usize = 0;
    while i < n
        invariant
            n == s@.len(),
            0 <= i <= n,
            out@ == spec_escape(s@.take(i as int)),
        decreases n - i,
    {
        let c = s.get_char(i);
        let cv = c as u32;
        if (48 <= cv && cv <= 57) || (65 <= cv && cv <= 90) || (97 <= cv && cv <= 122) || c == '-'
            || c == '_' || c == '.' || c == '~' {
            out.push(c);
        } else if c == ' ' {
            out.push('+');
        } else if cv < 128 {
            out.push('%');
            out.push(hex_of(cv / 16));
            out.push(hex_of(cv % 16));
        } else {
            out.push(c);
        }
        proof {
            lemma_escape_push(s@.take(i as int), s@[i as int]);
            assert(s@.take(i as int + 1) =~= s@.take(i as int).push(s@[i as int]));
            assert(out@ =~= spec_escape(s@.take(i as int + 1)));
        }
        i = i + 1;
    }
    proof {
        assert(s@.take(n as int) =~= s@);
    }
    out
}

/// Unescape one component of a query string.
pub fn unescape_component(s: &str) -> (r: Option<String>)
    ensures
        ({
            match r {
                Some(t) => spec_unescape(s@) == Some(t@),
                None => spec_unescape(s@) is None,
            }
        }),
{
    let n = s.unicode_len();
    let mut out = String::new();
    let mut i: usize = 0;
    proof {
        assert(s@.skip(0) =~= s@);
        if let Some(t) = spec_unescape(s@) {
            assert(out@ + t =~= t);
        }
    }
    while i < n
        invariant
            n == s@.len(),
            0 <= i <= n,
            spec_unescape(s@) == (match spec_unescape(s@.skip(i as int)) {
                Some(t) => Some(out@ + t),
                None => None::<Seq<char>>,
            }),
        decreases n - i,
    {
        let ghost rest = s@.skip(i as int);
        let ghost out0 = out@;
        proof {
            assert(rest.len() == n - i);
            assert(rest[0] == s@[i as int]);
        }
        let c = s.get_char(i);
        if c == '+' {
            out.push(' ');
            proof {
                assert(rest.skip(1) =~= s@.skip(i as int + 1));
                assert(out@ == out0 + seq![' ']);
                lemma_unescape_prefix_step(out0, seq![' '], spec_unescape(s@), rest, s@.skip(
                    i as int + 1,
                ));
            }
            i = i + 1;
        } else if c == '%' {
            if n - i < 3 {
                proof {
                    assert(rest.len() < 3);
                    assert(spec_unescape(rest) is None);
                }
                return None;
            }
            let h = s.get_char(i + 1);
            let l = s.get_char(i + 2);
            let hv = hex_value(h);
            let lv = hex_value(l);
            proof {
                assert(rest[1] == s@[i as int + 1]);
                assert(rest[2] == s@[i as int + 2]);
            }
            match (hv, lv) {
                (Some(hv), Some(lv)) => {
                    let v = hv * 16 + lv;
                    if v < 128 {
                        let decoded = (v as u8) as char;
                        proof {
                            assert(decoded == (hex_val(rest[1]) * 16 + hex_val(rest[2])) as char);
                        }
                        out.push(decoded);
                        proof {
                            assert(rest.skip(3) =~= s@.skip(i as int + 3));
                            assert(out@ == out0 + seq![decoded]);
                            lemma_unescape_prefix_step(out0, seq![decoded], spec_unescape(s@), rest,
                                s@.skip(i as int + 3));
                        }
                        i = i + 3;
                    } else {
                        proof {
                            assert(spec_unescape(rest) is None);
                        }
                        return None;
                    }
                },
                _ => {
                    proof {
                        assert(spec_unescape(rest) is None);
                    }
                    return None;
                },
            }
        } else {
            out.push(c);
            proof {
                assert(rest.skip(1) =~= s@.skip(i as int + 1));
                assert(out@ == out0 + seq![c]);
                lemma_unescape_prefix_step(out0, seq![c], spec_unescape(s@), rest, s@.skip(
                    i as int + 1,
                ));
            }
            i = i + 1;
        }
    }
    proof {
        assert(s@.skip(n as int) =~= Seq::<char>::empty());
        if let Some(t) = spec_unescape(s@.skip(n as int)) {
            assert(out@ + t =~= out@);
        }
    }
    Some(out)
}

/// One decoding step: when `rest` decodes by emitting `piece` and
/// continuing with `tail`, the accumulated output simply grows by `piece`.
proof fn lemma_unescape_prefix_step(
    out0: Seq<char>,
    piece: Seq<char>,
    whole: Option<Seq<char>>,
    rest: Seq<char>,
    tail: Seq<char>,
)
    requires
        whole == (match spec_unescape(rest) {
            Some(t) => Some(out0 + t),
            None => None::<Seq<char>>,
        }),
        spec_unescape(rest) == (match spec_unescape(tail) {
            Some(t) => Some(piece + t),
            None => None::<Seq<char>>,
        }),
    ensures
        whole == (match spec_unescape(tail) {
            Some(t) => Some((out0 + piece) + t),
            None => None::<Seq<char>>,
        }),
{
    match spec_unescape(tail) {
        Some(t) => {
            assert(out0 + (piece + t) =~= (out0 + piece) + t);
        },
        None => {},
    }
}

pub(crate) fn hex_value(c: char) -> (r: Option<u32>)
    ensures
        ({
            match r {
                Some(v) => is_hex_char(c) && v == hex_val(c),
                None => !is_hex_char(c),
            }
        }),
{
    let cv = c as u32;
    if 48 <= cv && cv <= 57 {
        Some(cv - 48)
    } else if 65 <= cv && cv <= 70 {
        Some(cv - 55)
    } else if 97 <= cv && cv <= 102 {
        Some(cv - 87)
    } else {
        None
    }
}

/// Index of the first occurrence of `sep`, or nothing.
pub open spec fn spec_find(s: Seq<char>, sep: char) -> int
    decreases s.len(),
{
    if s.len() == 0 {
        -1
    } else if s[0] == sep {
        0
    } else {
        let r = spec_find(s.skip(1), sep);
        if r == -1 {
            -1
        } else {
            r + 1
        }
    }
}

pub proof fn lemma_find_properties(s: Seq<char>, sep: char)
    ensures
        spec_find(s, sep) == -1 ==> (forall|i: int| 0 <= i < s.len() ==> s[i] != sep),
        spec_find(s, sep) != -1 ==> 0 <= spec_find(s, sep) < s.len() && s[spec_find(s, sep)] == sep
            && (forall|i: int| 0 <= i < spec_find(s, sep) ==> s[i] != sep),
    decreases s.len(),
{
    if s.len() > 0 && s[0] != sep {
        lemma_find_properties(s.skip(1), sep);
        let r = spec_find(s.skip(1), sep);
        if r == -1 {
            assert forall|i: int| 0 <= i < s.len() implies s[i] != sep by {
                if i > 0 {
                    assert(s[i] == s.skip(1)[i - 1]);
                }
            }
        } else {
            assert(s[r + 1] == s.skip(1)[r]);
            assert forall|i: int| 0 <= i < r + 1 implies s[i] != sep by {
                if i > 0 {
                    assert(s[i] == s.skip(1)[i - 1]);
                }
            }
        }
    }
}

/// The first separator of a separator-free head followed by `sep` stands
/// exactly at the head's end.
pub proof fn lemma_find_at_boundary(head: Seq<char>, tail: Seq<char>, sep: char)
    requires
        forall|i: int| 0 <= i < head.len() ==> head[i] != sep,
    ensures
        spec_find(head + seq![sep] + tail, sep) == head.len(),
    decreases head.len(),
{
    let s = head + seq![sep] + tail;
    if head.len() == 0 {
        assert(s[0] == sep);
    } else {
        assert(s[0] == head[0]);
        assert(s.skip(1) =~= head.skip(1) + seq![sep] + tail);
        lemma_find_at_boundary(head.skip(1), tail, sep);
    }
}

/// Splitting on a separator; a string without it is one segment, so the
/// result is never empty.
pub open spec fn spec_split(s: Seq<char>, sep: char) -> Seq<Seq<char>>
    decreases s.len(),
    via spec_split_decreases
{
    let i = spec_find(s, sep);
    if i == -1 {
        seq![s]
    } else {
        seq![s.take(i)] + spec_split(s.skip(i + 1), sep)
    }
}

#[via_fn]
proof fn spec_split_decreases(s: Seq<char>, sep: char) {
    lemma_find_properties(s, sep);
}

/// Joining with a separator.
pub open spec fn spec_join(segs: Seq<Seq<char>>, sep: char) -> Seq<char>
    decreases segs.len(),
{
    if segs.len() == 0 {
        Seq::empty()
    } else if segs.len() == 1 {
        segs[0]
    } else {
        segs[0] + seq![sep] + spec_join(segs.skip(1), sep)
    }
}

/// Joining one more segment appends a separator and the segment.
pub proof fn lemma_join_push(segs: Seq<Seq<char>>, x: Seq<char>, sep: char)
    requires
        segs.len() >= 1,
    ensures
        spec_join(segs.push(x), sep) == spec_join(segs, sep) + seq![sep] + x,
    decreases segs.len(),
{
    let p = segs.push(x);
    assert(p[0] == segs[0]);
    if segs.len() == 1 {
        assert(p.skip(1) =~= seq![x]);
        assert(spec_join(p.skip(1), sep) == x);
        assert(spec_join(p, sep) == segs[0] + seq![sep] + x);
        assert(spec_join(segs, sep) == segs[0]);
    } else {
        assert(p.skip(1) =~= segs.skip(1).push(x));
        lemma_join_push(segs.skip(1), x, sep);
        assert(spec_join(p, sep) == segs[0] + seq![sep] + (spec_join(segs.skip(1), sep)
            + seq![sep] + x));
        assert(segs[0] + seq![sep] + (spec_join(segs.skip(1), sep) + seq![sep] + x) =~= (segs[0]
            + seq![sep] + spec_join(segs.skip(1), sep)) + seq![sep] + x);
    }
}

/// Join owned segments with a separator character.
pub fn join_with(v: &Vec<String>, sep: char) -> (r: String)
    ensures
        r@ == spec_join(seq_views(v@), sep),
{
    let n = v.len();
    if n == 0 {
        let out = String::new();
        proof {
            assert(out@ =~= spec_join(seq_views(v@), sep));
        }
        return out;
    }
    let mut out = v[0].clone();
    let mut i: usize = 1;
    proof {
        assert(seq_views(v@).take(1) =~= seq![v@[0]@]);
    }
    while i < n
        invariant
            n == v@.len(),
            1 <= i <= n,
            out@ == spec_join(seq_views(v@).take(i as int), sep),
        decreases n - i,
    {
        out.push(sep);
        out.append(v[i].as_str());
        proof {
            lemma_join_push(seq_views(v@).take(i as int), v@[i as int]@, sep);
            assert(seq_views(v@).take(i as int + 1) =~= seq_views(v@).take(i as int).push(
                v@[i as int]@,
            ));
        }
        i = i + 1;
    }
    proof {
        assert(seq_views(v@).take(n as int) =~= seq_views(v@));
    }
    out
}

/// Splitting undoes joining when no segment holds the separator.
pub proof fn lemma_split_join(segs: Seq<Seq<char>>, sep: char)
    requires
        segs.len() >= 1,
        forall|i: int, j: int|
            0 <= i < segs.len() && 0 <= j < segs[i].len() ==> #[trigger] segs[i][j] != sep,
    ensures
        spec_split(spec_join(segs, sep), sep) == segs,
    decreases segs.len(),
{
    if segs.len() == 1 {
        let s = segs[0];
        lemma_find_properties(s, sep);
        assert(spec_find(s, sep) == -1) by {
            if spec_find(s, sep) != -1 {
                assert(s[spec_find(s, sep)] == sep);
            }
        };
        assert(spec_split(spec_join(segs, sep), sep) =~= segs);
    } else {
        let head = segs[0];
        let rest = segs.skip(1);
        let s = spec_join(segs, sep);
        assert(s == head + seq![sep] + spec_join(rest, sep));
        lemma_find_at_boundary(head, spec_join(rest, sep), sep);
        assert(spec_find(s, sep) == head.len());
        assert(s.take(head.len() as int) =~= head);
        assert(s.skip(head.len() as int + 1) =~= spec_join(rest, sep));
        assert(forall|i: int, j: int|
            0 <= i < rest.len() && 0 <= j < rest[i].len() ==> #[trigger] rest[i][j] != sep) by {
            assert(forall|i: int|
                0 <= i < rest.len() ==> rest[i] == segs[i + 1]);
        };
        lemma_split_join(rest, sep);
        assert(spec_split(s, sep) =~= segs);
    }
}

/// Find the first occurrence of `sep`.
pub fn find_char(s: &str, sep: char) -> (r: Option<usize>)
    ensures
        ({
            match r {
                Some(i) => spec_find(s@, sep) == i,
                None => spec_find(s@, sep) == -1,
            }
        }),
{
    let n = s.unicode_len();
    let mut i: usize = 0;
    while i < n
        invariant
            n == s@.len(),
            0 <= i <= n,
            forall|j: int| 0 <= j < i ==> s@[j] != sep,
        decreases n - i,
    {
        if s.get_char(i) == sep {
            proof {
                lemma_find_properties(s@, sep);
                lemma_find_unique(s@, sep, i as int);
            }
            return Some(i);
        }
        i = i + 1;
    }
    proof {
        lemma_find_properties(s@, sep);
        if spec_find(s@, sep) != -1 {
            assert(s@[spec_find(s@, sep)] == sep);
        }
    }
    None
}

/// The first occurrence characterizes `spec_find`.
proof fn lemma_find_unique(s: Seq<char>, sep: char, k: int)
    requires
        0 <= k < s.len(),
        s[k] == sep,
        forall|j: int| 0 <= j < k ==> s[j] != sep,
    ensures
        spec_find(s, sep) == k,
    decreases s.len(),
{
    if k > 0 {
        assert(s[0] != sep);
        assert(s.skip(1)[k - 1] == s[k]);
        assert(forall|j: int| 0 <= j < k - 1 ==> s.skip(1)[j] == s[j + 1]);
        lemma_find_unique(s.skip(1), sep, k - 1);
    }
}

/// The views of a list of owned strings.
pub open spec fn seq_views(v: Seq<String>) -> Seq<Seq<char>> {
    v.map_values(|x: String| x@)
}

/// Split a string on a separator character.
pub fn split_on(s: &str, sep: char) -> (r: Vec<String>)
    ensures
        seq_views(r@) == spec_split(s@, sep),
    decreases s@.len(),
{
    let n = s.unicode_len();
    match find_char(s, sep) {
        None => {
            let mut v: Vec<String> = Vec::new();
            v.push(s.to_owned());
            proof {
                assert(seq_views(v@) =~= spec_split(s@, sep));
            }
            v
        },
        Some(i) => {
            proof {
                lemma_find_properties(s@, sep);
            }
            let head = s.substring_char(0, i).to_owned();
            let tail = s.substring_char(i + 1, n);
            proof {
                assert(tail@ =~= s@.skip(i as int + 1));
                assert(head@ =~= s@.take(i as int));
            }
            let mut rest = split_on(tail, sep);
            rest.insert(0, head);
            proof {
                assert(seq_views(rest@) =~= spec_split(s@, sep));
            }
            rest
        },
    }
}

/// A query segment split at its first `=`: key and raw value; a segment
/// without `=` is all key with an empty value.
pub open spec fn spec_split_pair(seg: Seq<char>) -> (Seq<char>, Seq<char>) {
    let i = spec_find(seg, '=');
    if i == -1 {
        (seg, Seq::empty())
    } else {
        (seg.take(i), seg.skip(i + 1))
    }
}

/// Split a query segment into key and raw value.
pub fn split_pair(seg: &str) -> (r: (String, String))
    ensures
        (r.0@, r.1@) == spec_split_pair(seg@),
{
    let n = seg.unicode_len();
    match find_char(seg, '=') {
        None => {
            let empty = String::new();
            proof {
                assert(empty@ =~= Seq::<char>::empty());
            }
            (seg.to_owned(), empty)
        },
        Some(i) => {
            proof {
                lemma_find_properties(seg@, '=');
            }
            let k = seg.substring_char(0, i).to_owned();
            let v = seg.substring_char(i + 1, n).to_owned();
            proof {
                assert(k@ =~= seg@.take(i as int));
                assert(v@ =~= seg@.skip(i as int + 1));
            }
            (k, v)
        },
    }
}

} // verus!

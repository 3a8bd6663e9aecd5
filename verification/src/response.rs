//! Classifying an HTTP response once its body has been read: 2xx bodies
//! go on to schema deserialization; other statuses carry the structured
//! error shape `{ "error": "<message>" }`, parsed here, with the full set
//! of JSON string escapes, `\uXXXX` and surrogate pairs included.

use vstd::prelude::*;
use crate::error::{CongressError, Error};
use crate::query::{hex_val, is_hex_char};

verus! {

/// A 2xx status.
pub open spec fn spec_is_success(status: u16) -> bool {
    200 <= status < 300
}

/// Whether the status is in the success class.
pub fn is_success(status: u16) -> (r: bool)
    ensures
        r == spec_is_success(status),
{
    200 <= status && status < 300
}

pub open spec fn is_json_ws(c: char) -> bool {
    c == ' ' || c == '\t' || c == '\n' || c == '\r'
}

/// First position at or after `i` holding no whitespace.
pub open spec fn skip_ws(s: Seq<char>, i: int) -> int
    decreases s.len() - i when 0 <= i <= s.len()
{
    if i < s.len() && is_json_ws(s[i]) {
        skip_ws(s, i + 1)
    } else {
        i
    }
}

proof fn lemma_skip_ws_bounds(s: Seq<char>, i: int)
    requires
        0 <= i <= s.len(),
    ensures
        i <= skip_ws(s, i) <= s.len(),
    decreases s.len() - i,
{
    if i < s.len() && is_json_ws(s[i]) {
        lemma_skip_ws_bounds(s, i + 1);
    }
}

/// What a one-letter JSON escape stands for; the `\uXXXX` form is
/// handled on its own.
pub open spec fn escape_meaning(c: char) -> Option<char> {
    if c == '"' {
        Some('"')
    } else if c == '\\' {
        Some('\\')
    } else if c == '/' {
        Some('/')
    } else if c == 'b' {
        Some('\u{8}')
    } else if c == 'f' {
        Some('\u{c}')
    } else if c == 'n' {
        Some('\n')
    } else if c == 'r' {
        Some('\r')
    } else if c == 't' {
        Some('\t')
    } else {
        None
    }
}

/// Four hex digits stand at position `i`.
pub open spec fn hex4_ok(s: Seq<char>, i: int) -> bool {
    i + 4 <= s.len() && is_hex_char(s[i]) && is_hex_char(s[i + 1]) && is_hex_char(s[i + 2])
        && is_hex_char(s[i + 3])
}

/// Value of the four hex digits starting at position `i`.
pub open spec fn hex4_at(s: Seq<char>, i: int) -> int {
    hex_val(s[i]) * 4096 + hex_val(s[i + 1]) * 256 + hex_val(s[i + 2]) * 16 + hex_val(s[i + 3])
}

/// The content of a quoted string whose opening quote stands just before
/// `i`, with the position after its closing quote. A `\uXXXX` escape
/// names its code point directly; a leading surrogate must be followed by
/// a trailing one, and the pair names a supplementary code point, as in
/// JSON.
pub open spec fn spec_qstring_body(s: Seq<char>, i: int) -> Option<(Seq<char>, int)>
    decreases s.len() - i when 0 <= i <= s.len()
{
    if i >= s.len() {
        None
    } else if s[i] == '"' {
        Some((Seq::empty(), i + 1))
    } else if s[i] == '\\' {
        if i + 1 < s.len() {
            if s[i + 1] == 'u' {
                if hex4_ok(s, i + 2) {
                    let v = hex4_at(s, i + 2);
                    if v < 0xD800 || v >= 0xE000 {
                        match spec_qstring_body(s, i + 6) {
                            Some((t, j)) => Some((seq![v as char] + t, j)),
                            None => None,
                        }
                    } else if v < 0xDC00 {
                        // a leading surrogate takes a trailing one
                        if i + 8 <= s.len() && s[i + 6] == '\\' && s[i + 7] == 'u' && hex4_ok(
                            s,
                            i + 8,
                        ) {
                            let w = hex4_at(s, i + 8);
                            if 0xDC00 <= w < 0xE000 {
                                let p = 0x10000 + (v - 0xD800) * 1024 + (w - 0xDC00);
                                match spec_qstring_body(s, i + 12) {
                                    Some((t, j)) => Some((seq![p as char] + t, j)),
                                    None => None,
                                }
                            } else {
                                None
                            }
                        } else {
                            None
                        }
                    } else {
                        // a lone trailing surrogate names nothing
                        None
                    }
                } else {
                    None
                }
            } else {
                match escape_meaning(s[i + 1]) {
                    Some(c) => match spec_qstring_body(s, i + 2) {
                        Some((t, j)) => Some((seq![c] + t, j)),
                        None => None,
                    },
                    None => None,
                }
            }
        } else {
            None
        }
    } else {
        match spec_qstring_body(s, i + 1) {
            Some((t, j)) => Some((seq![s[i]] + t, j)),
            None => None,
        }
    }
}

/// A quoted string starting at `i`.
pub open spec fn spec_qstring(s: Seq<char>, i: int) -> Option<(Seq<char>, int)> {
    if 0 <= i < s.len() && s[i] == '"' {
        spec_qstring_body(s, i + 1)
    } else {
        None
    }
}

proof fn lemma_qstring_body_bounds(s: Seq<char>, i: int)
    requires
        0 <= i <= s.len(),
    ensures
        spec_qstring_body(s, i) matches Some((t, j)) ==> i < j <= s.len(),
    decreases s.len() - i,
{
    if i < s.len() && s[i] != '"' {
        if s[i] == '\\' {
            if i + 1 < s.len() {
                if s[i + 1] == 'u' {
                    if hex4_ok(s, i + 2) {
                        lemma_qstring_body_bounds(s, i + 6);
                        if i + 8 <= s.len() && hex4_ok(s, i + 8) {
                            lemma_qstring_body_bounds(s, i + 12);
                        }
                    }
                } else {
                    lemma_qstring_body_bounds(s, i + 2);
                }
            }
        } else {
            lemma_qstring_body_bounds(s, i + 1);
        }
    }
}

/// What the structured error body decodes to: the message of
/// `{ "error": "<message>" }` with nothing but whitespace around the
/// tokens, or nothing when the text has any other shape.
pub open spec fn spec_error_body(s: Seq<char>) -> Option<Seq<char>> {
    let i0 = skip_ws(s, 0);
    if i0 < s.len() && s[i0] == '{' {
        let i1 = skip_ws(s, i0 + 1);
        match spec_qstring(s, i1) {
            Some((k, i2)) => if k == seq!['e', 'r', 'r', 'o', 'r'] {
                let i3 = skip_ws(s, i2);
                if i3 < s.len() && s[i3] == ':' {
                    let i4 = skip_ws(s, i3 + 1);
                    match spec_qstring(s, i4) {
                        Some((msg, i5)) => {
                            let i6 = skip_ws(s, i5);
                            if i6 < s.len() && s[i6] == '}' && skip_ws(s, i6 + 1) == s.len() {
                                Some(msg)
                            } else {
                                None
                            }
                        },
                        None => None,
                    }
                } else {
                    None
                }
            } else {
                None
            },
            None => None,
        }
    } else {
        None
    }
}

fn skip_ws_exec(s: &str, i: usize) -> (r: usize)
    requires
        i <= s@.len() <= usize::MAX,
    ensures
        r == skip_ws(s@, i as int),
        i <= r <= s@.len(),
{
    let n = s.unicode_len();
    let mut j = i;
    loop
        invariant
            n == s@.len(),
            i <= j <= n,
            skip_ws(s@, i as int) == skip_ws(s@, j as int),
        decreases n - j,
    {
        if j >= n {
            return j;
        }
        let c = s.get_char(j);
        if !(c == ' ' || c == '\t' || c == '\n' || c == '\r') {
            return j;
        }
        j = j + 1;
    }
}

fn parse_qstring(s: &str, i: usize) -> (r: Option<(String, usize)>)
    requires
        i <= s@.len() <= usize::MAX,
    ensures
        ({
            match r {
                Some((t, j)) => spec_qstring(s@, i as int) == Some((t@, j as int)) && i < j
                    <= s@.len(),
                None => spec_qstring(s@, i as int) is None,
            }
        }),
{
    let n = s.unicode_len();
    if i >= n || s.get_char(i) != '"' {
        return None;
    }
    let mut out = String::new();
    let mut j = i + 1;
    proof {
        lemma_qstring_body_bounds(s@, i as int + 1);
        if let Some((t, _)) = spec_qstring_body(s@, i as int + 1) {
            assert(out@ + t =~= t);
        }
    }
    while j < n
        invariant
            n == s@.len() <= usize::MAX,
            i + 1 <= j <= n,
            s@[i as int] == '"',
            spec_qstring_body(s@, i as int + 1) == (match spec_qstring_body(s@, j as int) {
                Some((t, k)) => Some((out@ + t, k)),
                None => None::<(Seq<char>, int)>,
            }),
        decreases n - j,
    {
        let ghost out0 = out@;
        proof {
            lemma_qstring_body_bounds(s@, j as int);
        }
        let c = s.get_char(j);
        if c == '"' {
            proof {
                assert(spec_qstring_body(s@, j as int) == Some(
                    (Seq::<char>::empty(), j as int + 1),
                ));
                assert(out@ + Seq::<char>::empty() =~= out@);
                assert(spec_qstring_body(s@, i as int + 1) == Some((out@, j as int + 1)));
                assert(spec_qstring(s@, i as int) == spec_qstring_body(s@, i as int + 1));
            }
            return Some((out, j + 1));
        } else if c == '\\' {
            if j + 1 >= n {
                return None;
            }
            let e = s.get_char(j + 1);
            if e == 'u' {
                let v = match hex4_value(s, j + 2) {
                    Some(v) => v,
                    None => {
                        return None;
                    },
                };
                if v < 0xD800 || v >= 0xE000 {
                    let d = match char::from_u32(v) {
                        Some(d) => d,
                        None => {
                            // the surrogate range was just excluded
                            proof {
                                assert(false);
                            }
                            return None;
                        },
                    };
                    out.push(d);
                    proof {
                        assert(seq![d] =~= seq![hex4_at(s@, j as int + 2) as char]);
                        lemma_qstring_step(s@, j as int, out0, seq![d], j as int + 6);
                    }
                    j = j + 6;
                } else if v < 0xDC00 {
                    if n - j < 8 {
                        return None;
                    }
                    if !(s.get_char(j + 6) == '\\' && s.get_char(j + 7) == 'u') {
                        return None;
                    }
                    let w = match hex4_value(s, j + 8) {
                        Some(w) => w,
                        None => {
                            return None;
                        },
                    };
                    if 0xDC00 <= w && w < 0xE000 {
                        let p = 0x10000 + (v - 0xD800) * 1024 + (w - 0xDC00);
                        let d = match char::from_u32(p) {
                            Some(d) => d,
                            None => {
                                // a supplementary code point is always a scalar value
                                proof {
                                    assert(false);
                                }
                                return None;
                            },
                        };
                        out.push(d);
                        proof {
                            assert(seq![d] =~= seq![
                                (0x10000 + (hex4_at(s@, j as int + 2) - 0xD800) * 1024 + (hex4_at(
                                    s@,
                                    j as int + 8,
                                ) - 0xDC00)) as char,
                            ]);
                            lemma_qstring_step(s@, j as int, out0, seq![d], j as int + 12);
                        }
                        j = j + 12;
                    } else {
                        return None;
                    }
                } else {
                    return None;
                }
            } else {
                let m = escape_meaning_exec(e);
                match m {
                    Some(d) => {
                        out.push(d);
                        proof {
                            lemma_qstring_step(s@, j as int, out0, seq![d], j as int + 2);
                        }
                        j = j + 2;
                    },
                    None => {
                        return None;
                    },
                }
            }
        } else {
            out.push(c);
            proof {
                lemma_qstring_step(s@, j as int, out0, seq![c], j as int + 1);
            }
            j = j + 1;
        }
    }
    // the closing quote never came
    None
}

/// One scanning step inside a quoted string: the accumulated content
/// grows by what the position emitted.
proof fn lemma_qstring_step(s: Seq<char>, j: int, out0: Seq<char>, piece: Seq<char>, k: int)
    requires
        spec_qstring_body(s, j) == (match spec_qstring_body(s, k) {
            Some((t, m)) => Some((piece + t, m)),
            None => None::<(Seq<char>, int)>,
        }),
    ensures
        (match spec_qstring_body(s, j) {
            Some((t, m)) => Some(((out0 + t), m)),
            None => None::<(Seq<char>, int)>,
        }) == (match spec_qstring_body(s, k) {
            Some((t, m)) => Some((((out0 + piece) + t), m)),
            None => None::<(Seq<char>, int)>,
        }),
{
    match spec_qstring_body(s, k) {
        Some((t, _)) => {
            assert(out0 + (piece + t) =~= (out0 + piece) + t);
        },
        None => {},
    }
}

/// Read four hex digits.
fn hex4_value(s: &str, i: usize) -> (r: Option<u32>)
    requires
        i <= s@.len() <= usize::MAX,
    ensures
        ({
            match r {
                Some(v) => hex4_ok(s@, i as int) && v == hex4_at(s@, i as int) && v <= 0xFFFF,
                None => !hex4_ok(s@, i as int),
            }
        }),
{
    let n = s.unicode_len();
    if n - i < 4 {
        return None;
    }
    let h0 = crate::query::hex_value(s.get_char(i));
    let h1 = crate::query::hex_value(s.get_char(i + 1));
    let h2 = crate::query::hex_value(s.get_char(i + 2));
    let h3 = crate::query::hex_value(s.get_char(i + 3));
    match (h0, h1, h2, h3) {
        (Some(a), Some(b), Some(c), Some(d)) => Some(a * 4096 + b * 256 + c * 16 + d),
        _ => None,
    }
}

fn escape_meaning_exec(c: char) -> (r: Option<char>)
    ensures
        r == escape_meaning(c),
{
    if c == '"' {
        Some('"')
    } else if c == '\\' {
        Some('\\')
    } else if c == '/' {
        Some('/')
    } else if c == 'b' {
        Some('\u{8}')
    } else if c == 'f' {
        Some('\u{c}')
    } else if c == 'n' {
        Some('\n')
    } else if c == 'r' {
        Some('\r')
    } else if c == 't' {
        Some('\t')
    } else {
        None
    }
}

/// Decode the structured error body.
pub fn parse_error_body(s: &str) -> (r: Option<String>)
    ensures
        ({
            match r {
                Some(m) => spec_error_body(s@) == Some(m@),
                None => spec_error_body(s@) is None,
            }
        }),
{
    let n = s.unicode_len();
    let i0 = skip_ws_exec(s, 0);
    if i0 >= n || s.get_char(i0) != '{' {
        return None;
    }
    let i1 = skip_ws_exec(s, i0 + 1);
    let (k, i2) = match parse_qstring(s, i1) {
        Some(ki) => ki,
        None => {
            return None;
        },
    };
    proof {
        reveal_strlit("error");
        assert("error"@ =~= seq!['e', 'r', 'r', 'o', 'r']);
    }
    if !crate::text::str_eq(k.as_str(), "error") {
        return None;
    }
    let i3 = skip_ws_exec(s, i2);
    if i3 >= n || s.get_char(i3) != ':' {
        return None;
    }
    let i4 = skip_ws_exec(s, i3 + 1);
    let (msg, i5) = match parse_qstring(s, i4) {
        Some(mi) => mi,
        None => {
            return None;
        },
    };
    let i6 = skip_ws_exec(s, i5);
    if i6 < n && s.get_char(i6) == '}' && skip_ws_exec(s, i6 + 1) == n {
        Some(msg)
    } else {
        None
    }
}

/// Exactly what classifying a response yields: nothing for a success
/// status; for any other status the server's rejection, `Congress` with
/// the body's message when the body carries the structured error shape,
/// otherwise `JsonParseError` with an empty path and its fixed message.
pub open spec fn classification_outcome(status: u16, body: Seq<char>, r: Option<Error>) -> bool {
    if spec_is_success(status) {
        r is None
    } else {
        match spec_error_body(body) {
            Some(m) => r matches Some(e) && (e matches Error::Congress { source } && source.error@
                == m),
            None => r matches Some(e) && (e matches Error::JsonParseError { path, message }
                && path@ == Seq::<char>::empty() && message@
                == "the error body is not in the expected shape"@),
        }
    }
}

/// Classification is a function of status and body text alone: any two
/// outcomes the contract admits agree on the class and on every carried
/// text, so repeated classification of the same response is stateless.
pub proof fn lemma_classification_deterministic(
    status: u16,
    body: Seq<char>,
    r1: Option<Error>,
    r2: Option<Error>,
)
    requires
        classification_outcome(status, body, r1),
        classification_outcome(status, body, r2),
    ensures
        (r1 is None) == (r2 is None),
        r1 matches Some(Error::Congress { source: s1 }) ==> (r2 matches Some(
            Error::Congress { source: s2 },
        ) && s1.error@ == s2.error@),
        r1 matches Some(Error::JsonParseError { path: p1, message: m1 }) ==> (r2 matches Some(
            Error::JsonParseError { path: p2, message: m2 },
        ) && p1@ == p2@ && m1@ == m2@),
{
}

/// Decide what a response means once its body is in hand: a success
/// status hands the body on to schema decoding (no error); any other
/// status is the server's rejection, `Congress` when the body carries the
/// structured error shape, otherwise the JSON failure itself.
pub fn classify_response(status: u16, body: &str) -> (r: Option<Error>)
    ensures
        classification_outcome(status, body@, r),
        (r is None) == spec_is_success(status),
{
    if is_success(status) {
        None
    } else {
        match parse_error_body(body) {
            Some(m) => Some(Error::Congress { source: CongressError { error: m } }),
            None => Some(
                Error::JsonParseError {
                    path: String::new(),
                    message: String::from_str("the error body is not in the expected shape"),
                },
            ),
        }
    }
}

/// What the executor returns for a 2xx body once the schema
/// deserialization engine has reported: success passes through, and a
/// failure is wrapped with the path at which it diverged.
pub fn deserialization_outcome<R>(parsed: Result<R, JsonFailure>) -> (r: Result<R, Error>)
    ensures
        parsed matches Ok(v) ==> r == Ok::<R, Error>(v),
        parsed matches Err(f) ==> (r matches Err(e) && (e matches Error::JsonParseError {
            path,
            message,
        } && path@ == f.path@ && message@ == f.message@)),
{
    match parsed {
        Ok(v) => Ok(v),
        Err(f) => Err(Error::JsonParseError { path: f.path, message: f.message }),
    }
}

/// How the schema deserialization engine reports a mismatch: the path of
/// the field where it diverged, and its message.
#[derive(Clone, Debug, PartialEq, Eq)]
pub struct JsonFailure {
    pub path: String,
    pub message: String,
}

} // verus!

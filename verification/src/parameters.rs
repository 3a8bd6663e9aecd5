//! The recognized query options of a list request: limit, offset, date
//! range, sort order. One value serves both directions of the wire: it
//! renders to a query string, and it is decoded back from the query string
//! of a server-issued pagination URL.

use vstd::prelude::*;
use vstd::utf8::is_ascii_chars;
use crate::datetime::{datetime_to_string, parse_datetime, spec_datetime_str, spec_parse_datetime, DateTime};
use crate::decimal::{all_digit_chars, parse_u32, spec_parse_u32, spec_u32_digits, u32_to_string};
use crate::error::DecodeError;
use crate::query::{
    escape_component, join_with, spec_escape, spec_find, spec_join, spec_split, spec_split_pair,
    spec_unescape, split_on, split_pair, unescape_component, seq_views,
};
use crate::sort::{spec_sort_from, spec_sort_token, Sort};
use crate::text::str_eq;

verus! {

#[derive(Clone, Copy, Debug, PartialEq, Eq)]
pub struct Parameters {
    pub limit: Option<u32>,
    pub offset: Option<u32>,
    pub from_date: Option<DateTime>,
    pub to_date: Option<DateTime>,
    pub sort: Option<Sort>,
}

impl Parameters {
    /// No options set.
    pub open spec fn spec_default() -> Parameters {
        Parameters { limit: None, offset: None, from_date: None, to_date: None, sort: None }
    }

    /// Dates, where present, lie on the calendar the wire format carries.
    pub open spec fn wf(self) -> bool {
        &&& (self.from_date matches Some(d) ==> d.valid())
        &&& (self.to_date matches Some(d) ==> d.valid())
    }

    pub open spec fn with_limit(self, n: u32) -> Parameters {
        Parameters {
            limit: Some(n),
            offset: self.offset,
            from_date: self.from_date,
            to_date: self.to_date,
            sort: self.sort,
        }
    }

    pub open spec fn with_offset(self, n: u32) -> Parameters {
        Parameters {
            limit: self.limit,
            offset: Some(n),
            from_date: self.from_date,
            to_date: self.to_date,
            sort: self.sort,
        }
    }

    pub open spec fn with_from_date(self, d: DateTime) -> Parameters {
        Parameters {
            limit: self.limit,
            offset: self.offset,
            from_date: Some(d),
            to_date: self.to_date,
            sort: self.sort,
        }
    }

    pub open spec fn with_to_date(self, d: DateTime) -> Parameters {
        Parameters {
            limit: self.limit,
            offset: self.offset,
            from_date: self.from_date,
            to_date: Some(d),
            sort: self.sort,
        }
    }

    pub open spec fn with_sort(self, s: Sort) -> Parameters {
        Parameters {
            limit: self.limit,
            offset: self.offset,
            from_date: self.from_date,
            to_date: self.to_date,
            sort: Some(s),
        }
    }
}

impl Default for Parameters {
    fn default() -> (r: Parameters)
        ensures
            r == Parameters::spec_default(),
    {
        Parameters { limit: None, offset: None, from_date: None, to_date: None, sort: None }
    }
}

pub open spec fn key_limit() -> Seq<char> {
    seq!['l', 'i', 'm', 'i', 't']
}

pub open spec fn key_offset() -> Seq<char> {
    seq!['o', 'f', 'f', 's', 'e', 't']
}

pub open spec fn key_from_date() -> Seq<char> {
    seq!['f', 'r', 'o', 'm', 'D', 'a', 't', 'e', 'T', 'i', 'm', 'e']
}

pub open spec fn key_to_date() -> Seq<char> {
    seq!['t', 'o', 'D', 'a', 't', 'e', 'T', 'i', 'm', 'e']
}

pub open spec fn key_sort() -> Seq<char> {
    seq!['s', 'o', 'r', 't']
}

/// One `key=value` segment, with the value escaped.
pub open spec fn spec_segment(key: Seq<char>, value: Seq<char>) -> Seq<char> {
    key + seq!['='] + spec_escape(value)
}

pub open spec fn limit_segments(limit: Option<u32>) -> Seq<Seq<char>> {
    match limit {
        Some(n) => seq![spec_segment(key_limit(), spec_u32_digits(n as nat))],
        None => Seq::empty(),
    }
}

pub open spec fn offset_segments(offset: Option<u32>) -> Seq<Seq<char>> {
    match offset {
        Some(n) => seq![spec_segment(key_offset(), spec_u32_digits(n as nat))],
        None => Seq::empty(),
    }
}

pub open spec fn from_date_segments(d: Option<DateTime>) -> Seq<Seq<char>> {
    match d {
        Some(d) => seq![spec_segment(key_from_date(), spec_datetime_str(d))],
        None => Seq::empty(),
    }
}

pub open spec fn to_date_segments(d: Option<DateTime>) -> Seq<Seq<char>> {
    match d {
        Some(d) => seq![spec_segment(key_to_date(), spec_datetime_str(d))],
        None => Seq::empty(),
    }
}

pub open spec fn sort_segments(s: Option<Sort>) -> Seq<Seq<char>> {
    match s {
        Some(s) => seq![spec_segment(key_sort(), spec_sort_token(s))],
        None => Seq::empty(),
    }
}

/// The `key=value` segments of the populated fields, in a fixed order;
/// absent fields contribute nothing.
pub open spec fn spec_segments(p: Parameters) -> Seq<Seq<char>> {
    limit_segments(p.limit) + offset_segments(p.offset) + from_date_segments(p.from_date)
        + to_date_segments(p.to_date) + sort_segments(p.sort)
}

/// The query string of a parameter set: its segments joined with `&`.
pub open spec fn spec_encode(p: Parameters) -> Seq<char> {
    spec_join(spec_segments(p), '&')
}

/// One decoded segment folded into the parameter set: a recognized key
/// replaces its field and fails only when its value is malformed; an
/// unknown key is ignored.
pub open spec fn spec_apply_segment(p: Parameters, seg: Seq<char>) -> Result<
    Parameters,
    DecodeError,
> {
    let (k, v) = spec_split_pair(seg);
    if k == key_limit() {
        match spec_unescape(v) {
            Some(t) => match spec_parse_u32(t) {
                Some(n) => Ok(p.with_limit(n)),
                None => Err(DecodeError::Limit),
            },
            None => Err(DecodeError::Limit),
        }
    } else if k == key_offset() {
        match spec_unescape(v) {
            Some(t) => match spec_parse_u32(t) {
                Some(n) => Ok(p.with_offset(n)),
                None => Err(DecodeError::Offset),
            },
            None => Err(DecodeError::Offset),
        }
    } else if k == key_from_date() {
        match spec_unescape(v) {
            Some(t) => match spec_parse_datetime(t) {
                Some(d) => Ok(p.with_from_date(d)),
                None => Err(DecodeError::FromDate),
            },
            None => Err(DecodeError::FromDate),
        }
    } else if k == key_to_date() {
        match spec_unescape(v) {
            Some(t) => match spec_parse_datetime(t) {
                Some(d) => Ok(p.with_to_date(d)),
                None => Err(DecodeError::ToDate),
            },
            None => Err(DecodeError::ToDate),
        }
    } else if k == key_sort() {
        match spec_unescape(v) {
            Some(t) => match spec_sort_from(t) {
                Some(s) => Ok(p.with_sort(s)),
                None => Err(DecodeError::Sort),
            },
            None => Err(DecodeError::Sort),
        }
    } else {
        Ok(p)
    }
}

pub open spec fn spec_fold_segments(p: Parameters, segs: Seq<Seq<char>>) -> Result<
    Parameters,
    DecodeError,
>
    decreases segs.len(),
{
    if segs.len() == 0 {
        Ok(p)
    } else {
        match spec_apply_segment(p, segs[0]) {
            Ok(q) => spec_fold_segments(q, segs.skip(1)),
            Err(e) => Err(e),
        }
    }
}

/// What decoding a whole query string yields: the empty string is the
/// empty parameter set; otherwise its `&`-separated segments are folded
/// in order, a later duplicate key winning over an earlier one.
pub open spec fn spec_decode(s: Seq<char>) -> Result<Parameters, DecodeError> {
    if s.len() == 0 {
        Ok(Parameters::spec_default())
    } else {
        spec_fold_segments(Parameters::spec_default(), spec_split(s, '&'))
    }
}

impl Parameters {
    /// Render the populated fields as a query string; absent fields are
    /// omitted entirely.
    #[verifier::rlimit(100)]
    pub fn to_query_string(&self) -> (r: String)
        requires
            self.wf(),
        ensures
            r@ == spec_encode(*self),
    {
        let mut segs: Vec<String> = Vec::new();
        if let Some(n) = self.limit {
            let seg = render_segment("limit", u32_to_string(n).as_str());
            proof {
                reveal_strlit("limit");
                assert("limit"@ =~= key_limit());
            }
            segs.push(seg);
        }
        proof {
            assert(seq_views(segs@) =~= limit_segments(self.limit));
        }
        if let Some(n) = self.offset {
            let seg = render_segment("offset", u32_to_string(n).as_str());
            proof {
                reveal_strlit("offset");
                assert("offset"@ =~= key_offset());
            }
            segs.push(seg);
        }
        proof {
            assert(seq_views(segs@) =~= limit_segments(self.limit) + offset_segments(self.offset));
        }
        if let Some(d) = self.from_date {
            let seg = render_segment("fromDateTime", datetime_to_string(&d).as_str());
            proof {
                reveal_strlit("fromDateTime");
                assert("fromDateTime"@ =~= key_from_date());
            }
            segs.push(seg);
        }
        proof {
            assert(seq_views(segs@) =~= limit_segments(self.limit) + offset_segments(self.offset)
                + from_date_segments(self.from_date));
        }
        if let Some(d) = self.to_date {
            let seg = render_segment("toDateTime", datetime_to_string(&d).as_str());
            proof {
                reveal_strlit("toDateTime");
                assert("toDateTime"@ =~= key_to_date());
            }
            segs.push(seg);
        }
        proof {
            assert(seq_views(segs@) =~= limit_segments(self.limit) + offset_segments(self.offset)
                + from_date_segments(self.from_date) + to_date_segments(self.to_date));
        }
        if let Some(s) = self.sort {
            let seg = render_segment("sort", s.as_str());
            proof {
                reveal_strlit("sort");
                assert("sort"@ =~= key_sort());
            }
            segs.push(seg);
        }
        proof {
            assert(seq_views(segs@) =~= spec_segments(*self));
        }
        join_with(&segs, '&')
    }

    /// Decode a query string; see `spec_decode` for the exact meaning.
    pub fn from_str(s: &str) -> (r: Result<Parameters, DecodeError>)
        ensures
            r == spec_decode(s@),
            r matches Ok(p) ==> p.wf(),
    {
        proof {
            lemma_decode_wf(s@);
        }
        if s.unicode_len() == 0 {
            return Ok(Parameters::default());
        }
        let segs = split_on(s, '&');
        let ghost views = seq_views(segs@);
        let mut p = Parameters::default();
        let mut i: usize = 0;
        proof {
            assert(views.skip(0) =~= views);
        }
        while i < segs.len()
            invariant
                segs@.len() == views.len(),
                views == seq_views(segs@),
                0 <= i <= segs@.len(),
                spec_decode(s@) == spec_fold_segments(p, views.skip(i as int)),
            decreases segs@.len() - i,
        {
            proof {
                assert(views.skip(i as int)[0] == segs@[i as int]@);
                assert(views.skip(i as int).skip(1) =~= views.skip(i as int + 1));
            }
            match apply_segment(p, segs[i].as_str()) {
                Ok(q) => {
                    p = q;
                },
                Err(e) => {
                    return Err(e);
                },
            }
            i = i + 1;
        }
        proof {
            assert(views.skip(segs@.len() as int) =~= Seq::<Seq<char>>::empty());
        }
        Ok(p)
    }
}

/// Implemented by the handler types of this crate; keeps the capability
/// traits below closed to outside implementations.
pub trait Sealed {

}

/// A handler that carries a parameter set. `params` is the set it holds;
/// `with_params` is the same handler with that set exchanged, so the
/// setters below change nothing else.
pub trait HasParameters: Sized {
    spec fn params(&self) -> Parameters;

    spec fn with_params(self, p: Parameters) -> Self;

    fn get_parameters(&self) -> (r: Parameters)
        ensures
            r == self.params(),
    ;

    fn replace_parameters(self, p: Parameters) -> (r: Self)
        ensures
            r == self.with_params(p),
            r.params() == p,
    ;
}

/// Page-window options, available on every list handler.
pub trait PageParameters: HasParameters + Sealed {
    /// Cap the number of items per page.
    fn limit(self, limit: u32) -> (r: Self)
        ensures
            r == self.with_params(self.params().with_limit(limit)),
            r.params() == self.params().with_limit(limit),
    {
        let p = self.get_parameters().with_limit_exec(limit);
        self.replace_parameters(p)
    }

    /// Skip this many items from the start of the collection.
    fn offset(self, offset: u32) -> (r: Self)
        ensures
            r == self.with_params(self.params().with_offset(offset)),
            r.params() == self.params().with_offset(offset),
    {
        let p = self.get_parameters().with_offset_exec(offset);
        self.replace_parameters(p)
    }
}

/// Date-range and ordering options, available on sortable list handlers.
/// The date setters take only calendar dates, as the wire format's
/// four-digit year demands.
pub trait SortParameters: HasParameters + Sealed {
    /// Inclusive lower bound on the update date.
    fn from_date(self, from_date: DateTime) -> (r: Self)
        requires
            from_date.valid(),
        ensures
            r == self.with_params(self.params().with_from_date(from_date)),
            r.params() == self.params().with_from_date(from_date),
    {
        let p = self.get_parameters().with_from_date_exec(from_date);
        self.replace_parameters(p)
    }

    /// Inclusive upper bound on the update date.
    fn to_date(self, to_date: DateTime) -> (r: Self)
        requires
            to_date.valid(),
        ensures
            r == self.with_params(self.params().with_to_date(to_date)),
            r.params() == self.params().with_to_date(to_date),
    {
        let p = self.get_parameters().with_to_date_exec(to_date);
        self.replace_parameters(p)
    }

    /// Order the collection by update date.
    fn sort(self, sort: Sort) -> (r: Self)
        ensures
            r == self.with_params(self.params().with_sort(sort)),
            r.params() == self.params().with_sort(sort),
    {
        let p = self.get_parameters().with_sort_exec(sort);
        self.replace_parameters(p)
    }
}

/// Applying a segment keeps dates on the calendar: a date field is only
/// ever set to a value the wire parser accepted.
proof fn lemma_apply_segment_wf(p: Parameters, seg: Seq<char>)
    requires
        p.wf(),
    ensures
        spec_apply_segment(p, seg) matches Ok(q) ==> q.wf(),
{
}

proof fn lemma_fold_segments_wf(p: Parameters, segs: Seq<Seq<char>>)
    requires
        p.wf(),
    ensures
        spec_fold_segments(p, segs) matches Ok(q) ==> q.wf(),
    decreases segs.len(),
{
    if segs.len() > 0 {
        lemma_apply_segment_wf(p, segs[0]);
        match spec_apply_segment(p, segs[0]) {
            Ok(q) => {
                lemma_fold_segments_wf(q, segs.skip(1));
            },
            Err(_) => {},
        }
    }
}

/// Whatever decodes is well formed: its dates lie on the calendar.
pub proof fn lemma_decode_wf(s: Seq<char>)
    ensures
        spec_decode(s) matches Ok(p) ==> p.wf(),
{
    if s.len() != 0 {
        lemma_fold_segments_wf(Parameters::spec_default(), spec_split(s, '&'));
    }
}

/// Folding distributes over concatenation of segment lists.
proof fn lemma_fold_append(p: Parameters, a: Seq<Seq<char>>, b: Seq<Seq<char>>)
    ensures
        spec_fold_segments(p, a + b) == (match spec_fold_segments(p, a) {
            Ok(q) => spec_fold_segments(q, b),
            Err(e) => Err(e),
        }),
    decreases a.len(),
{
    if a.len() == 0 {
        assert(a + b =~= b);
    } else {
        assert((a + b)[0] == a[0]);
        assert((a + b).skip(1) =~= a.skip(1) + b);
        match spec_apply_segment(p, a[0]) {
            Ok(q) => {
                lemma_fold_append(q, a.skip(1), b);
            },
            Err(_) => {},
        }
    }
}

/// Folding a single segment is applying it.
proof fn lemma_fold_one(p: Parameters, x: Seq<char>)
    ensures
        spec_fold_segments(p, seq![x]) == spec_apply_segment(p, x),
{
    assert(seq![x][0] == x);
    assert(seq![x].skip(1) =~= Seq::<Seq<char>>::empty());
    match spec_apply_segment(p, x) {
        Ok(q) => {
            assert(spec_fold_segments(q, seq![x].skip(1)) == Ok::<Parameters, DecodeError>(q));
        },
        Err(_) => {},
    }
}

/// The five recognized keys hold neither separator character.
proof fn lemma_key_chars()
    ensures
        forall|j: int|
            0 <= j < key_limit().len() ==> #[trigger] key_limit()[j] != '&' && key_limit()[j]
                != '=',
        forall|j: int|
            0 <= j < key_offset().len() ==> #[trigger] key_offset()[j] != '&' && key_offset()[j]
                != '=',
        forall|j: int|
            0 <= j < key_from_date().len() ==> #[trigger] key_from_date()[j] != '&'
                && key_from_date()[j] != '=',
        forall|j: int|
            0 <= j < key_to_date().len() ==> #[trigger] key_to_date()[j] != '&' && key_to_date()[j]
                != '=',
        forall|j: int|
            0 <= j < key_sort().len() ==> #[trigger] key_sort()[j] != '&' && key_sort()[j] != '=',
{
}

/// A rendered segment splits back into its key and escaped value, and
/// holds no `&`.
proof fn lemma_segment_shape(key: Seq<char>, val: Seq<char>)
    requires
        forall|j: int| 0 <= j < key.len() ==> #[trigger] key[j] != '&' && key[j] != '=',
        is_ascii_chars(val),
    ensures
        spec_split_pair(spec_segment(key, val)) == (key, spec_escape(val)),
        forall|j: int|
            0 <= j < spec_segment(key, val).len() ==> #[trigger] spec_segment(key, val)[j] != '&',
{
    let seg = spec_segment(key, val);
    let esc = spec_escape(val);
    crate::query::lemma_escape_output(val);
    crate::query::lemma_find_at_boundary(key, esc, '=');
    assert(spec_find(seg, '=') == key.len());
    assert(seg.take(key.len() as int) =~= key);
    assert(seg.skip(key.len() as int + 1) =~= esc);
    assert forall|j: int| 0 <= j < seg.len() implies #[trigger] seg[j] != '&' by {
        if j < key.len() {
            assert(seg[j] == key[j]);
        } else if j == key.len() {
            assert(seg[j] == '=');
        } else {
            assert(seg[j] == esc[j - key.len() - 1]);
            assert(crate::query::escape_output_char_ok(esc[j - key.len() - 1]));
        }
    }
}

/// The decimal digits of a value are ASCII.
proof fn lemma_digits_ascii(n: u32)
    ensures
        is_ascii_chars(spec_u32_digits(n as nat)),
{
    crate::decimal::lemma_u32_roundtrip(n);
    let s = spec_u32_digits(n as nat);
    assert(all_digit_chars(s));
    assert forall|i: int| 0 <= i < s.len() implies '\0' <= #[trigger] s[i] <= '\u{7f}' by {
        assert(crate::decimal::is_digit_char(s[i]));
        assert(48 <= s[i] as int <= 57);
    }
}

/// A rendered timestamp is ASCII.
proof fn lemma_datetime_str_ascii(dt: DateTime)
    ensures
        is_ascii_chars(spec_datetime_str(dt)),
{
    let s = spec_datetime_str(dt);
    assert forall|i: int| 0 <= i < s.len() implies '\0' <= #[trigger] s[i] <= '\u{7f}' by {
        assert(0 <= dt.date.year as int / 1000 % 10 < 10);
        assert(0 <= dt.date.year as int / 100 % 10 < 10);
        assert(0 <= dt.date.year as int / 10 % 10 < 10);
        assert(0 <= dt.date.year as int % 10 < 10);
        assert(0 <= dt.date.month as int / 10 % 10 < 10);
        assert(0 <= dt.date.month as int % 10 < 10);
        assert(0 <= dt.date.day as int / 10 % 10 < 10);
        assert(0 <= dt.date.day as int % 10 < 10);
        assert(0 <= dt.time.hour as int / 10 % 10 < 10);
        assert(0 <= dt.time.hour as int % 10 < 10);
        assert(0 <= dt.time.minute as int / 10 % 10 < 10);
        assert(0 <= dt.time.minute as int % 10 < 10);
        assert(0 <= dt.time.second as int / 10 % 10 < 10);
        assert(0 <= dt.time.second as int % 10 < 10);
    }
}

/// A sort token is ASCII.
proof fn lemma_sort_token_ascii(s: Sort)
    ensures
        is_ascii_chars(spec_sort_token(s)),
{
}

/// Applying the rendered limit segment sets the limit.
proof fn lemma_apply_limit(q: Parameters, n: u32)
    ensures
        spec_apply_segment(q, spec_segment(key_limit(), spec_u32_digits(n as nat))) == Ok::<
            Parameters,
            DecodeError,
        >(q.with_limit(n)),
{
    lemma_key_chars();
    lemma_digits_ascii(n);
    lemma_segment_shape(key_limit(), spec_u32_digits(n as nat));
    crate::query::lemma_unescape_escape(spec_u32_digits(n as nat));
    crate::decimal::lemma_u32_roundtrip(n);
}

/// Applying the rendered offset segment sets the offset.
proof fn lemma_apply_offset(q: Parameters, n: u32)
    ensures
        spec_apply_segment(q, spec_segment(key_offset(), spec_u32_digits(n as nat))) == Ok::<
            Parameters,
            DecodeError,
        >(q.with_offset(n)),
{
    lemma_key_chars();
    lemma_digits_ascii(n);
    lemma_segment_shape(key_offset(), spec_u32_digits(n as nat));
    crate::query::lemma_unescape_escape(spec_u32_digits(n as nat));
    crate::decimal::lemma_u32_roundtrip(n);
}

/// Applying the rendered lower date bound sets it.
proof fn lemma_apply_from_date(q: Parameters, d: DateTime)
    requires
        d.valid(),
    ensures
        spec_apply_segment(q, spec_segment(key_from_date(), spec_datetime_str(d))) == Ok::<
            Parameters,
            DecodeError,
        >(q.with_from_date(d)),
{
    lemma_key_chars();
    lemma_datetime_str_ascii(d);
    lemma_segment_shape(key_from_date(), spec_datetime_str(d));
    crate::query::lemma_unescape_escape(spec_datetime_str(d));
    crate::datetime::lemma_datetime_roundtrip(d);
}

/// Applying the rendered upper date bound sets it.
proof fn lemma_apply_to_date(q: Parameters, d: DateTime)
    requires
        d.valid(),
    ensures
        spec_apply_segment(q, spec_segment(key_to_date(), spec_datetime_str(d))) == Ok::<
            Parameters,
            DecodeError,
        >(q.with_to_date(d)),
{
    lemma_key_chars();
    lemma_datetime_str_ascii(d);
    lemma_segment_shape(key_to_date(), spec_datetime_str(d));
    crate::query::lemma_unescape_escape(spec_datetime_str(d));
    crate::datetime::lemma_datetime_roundtrip(d);
}

/// Applying the rendered sort segment sets the sort order.
proof fn lemma_apply_sort(q: Parameters, s: Sort)
    ensures
        spec_apply_segment(q, spec_segment(key_sort(), spec_sort_token(s))) == Ok::<
            Parameters,
            DecodeError,
        >(q.with_sort(s)),
{
    lemma_key_chars();
    lemma_sort_token_ascii(s);
    lemma_segment_shape(key_sort(), spec_sort_token(s));
    crate::query::lemma_unescape_escape(spec_sort_token(s));
    crate::sort::lemma_sort_roundtrip(s);
}

/// Folding the optional limit part of the segment list.
proof fn lemma_fold_limit(q: Parameters, limit: Option<u32>)
    ensures
        spec_fold_segments(q, limit_segments(limit)) == Ok::<Parameters, DecodeError>(
            match limit {
                Some(n) => q.with_limit(n),
                None => q,
            },
        ),
{
    match limit {
        Some(n) => {
            lemma_apply_limit(q, n);
            lemma_fold_one(q, spec_segment(key_limit(), spec_u32_digits(n as nat)));
        },
        None => {},
    }
}

proof fn lemma_fold_offset(q: Parameters, offset: Option<u32>)
    ensures
        spec_fold_segments(q, offset_segments(offset)) == Ok::<Parameters, DecodeError>(
            match offset {
                Some(n) => q.with_offset(n),
                None => q,
            },
        ),
{
    match offset {
        Some(n) => {
            lemma_apply_offset(q, n);
            lemma_fold_one(q, spec_segment(key_offset(), spec_u32_digits(n as nat)));
        },
        None => {},
    }
}

proof fn lemma_fold_from_date(q: Parameters, d: Option<DateTime>)
    requires
        d matches Some(dd) ==> dd.valid(),
    ensures
        spec_fold_segments(q, from_date_segments(d)) == Ok::<Parameters, DecodeError>(
            match d {
                Some(dd) => q.with_from_date(dd),
                None => q,
            },
        ),
{
    match d {
        Some(dd) => {
            lemma_apply_from_date(q, dd);
            lemma_fold_one(q, spec_segment(key_from_date(), spec_datetime_str(dd)));
        },
        None => {},
    }
}

proof fn lemma_fold_to_date(q: Parameters, d: Option<DateTime>)
    requires
        d matches Some(dd) ==> dd.valid(),
    ensures
        spec_fold_segments(q, to_date_segments(d)) == Ok::<Parameters, DecodeError>(
            match d {
                Some(dd) => q.with_to_date(dd),
                None => q,
            },
        ),
{
    match d {
        Some(dd) => {
            lemma_apply_to_date(q, dd);
            lemma_fold_one(q, spec_segment(key_to_date(), spec_datetime_str(dd)));
        },
        None => {},
    }
}

proof fn lemma_fold_sort(q: Parameters, s: Option<Sort>)
    ensures
        spec_fold_segments(q, sort_segments(s)) == Ok::<Parameters, DecodeError>(
            match s {
                Some(ss) => q.with_sort(ss),
                None => q,
            },
        ),
{
    match s {
        Some(ss) => {
            lemma_apply_sort(q, ss);
            lemma_fold_one(q, spec_segment(key_sort(), spec_sort_token(ss)));
        },
        None => {},
    }
}

/// No segment of a well-formed parameter set holds a `&`.
proof fn lemma_segments_amp_free(p: Parameters)
    requires
        p.wf(),
    ensures
        forall|i: int, j: int|
            0 <= i < spec_segments(p).len() && 0 <= j < spec_segments(p)[i].len()
                ==> #[trigger] spec_segments(p)[i][j] != '&',
{
    let segs = spec_segments(p);
    lemma_key_chars();
    assert forall|i: int, j: int|
        0 <= i < segs.len() && 0 <= j < segs[i].len() implies #[trigger] segs[i][j] != '&' by {
        let l = limit_segments(p.limit);
        let o = offset_segments(p.offset);
        let f = from_date_segments(p.from_date);
        let t = to_date_segments(p.to_date);
        let s = sort_segments(p.sort);
        if i < l.len() {
            assert(segs[i] == l[0]);
            let n = p.limit->Some_0;
            lemma_digits_ascii(n);
            lemma_segment_shape(key_limit(), spec_u32_digits(n as nat));
        } else if i < l.len() + o.len() {
            assert(segs[i] == o[0]);
            let n = p.offset->Some_0;
            lemma_digits_ascii(n);
            lemma_segment_shape(key_offset(), spec_u32_digits(n as nat));
        } else if i < l.len() + o.len() + f.len() {
            assert(segs[i] == f[0]);
            let d = p.from_date->Some_0;
            lemma_datetime_str_ascii(d);
            lemma_segment_shape(key_from_date(), spec_datetime_str(d));
        } else if i < l.len() + o.len() + f.len() + t.len() {
            assert(segs[i] == t[0]);
            let d = p.to_date->Some_0;
            lemma_datetime_str_ascii(d);
            lemma_segment_shape(key_to_date(), spec_datetime_str(d));
        } else {
            assert(segs[i] == s[0]);
            let ss = p.sort->Some_0;
            lemma_sort_token_ascii(ss);
            lemma_segment_shape(key_sort(), spec_sort_token(ss));
        }
    }
}

/// Round trip: decoding an encoded parameter set gives it back, for every
/// well-formed value and every recognized field.
#[verifier::rlimit(100)]
pub proof fn lemma_parameters_roundtrip(p: Parameters)
    requires
        p.wf(),
    ensures
        spec_decode(spec_encode(p)) == Ok::<Parameters, DecodeError>(p),
{
    let segs = spec_segments(p);
    let l = limit_segments(p.limit);
    let o = offset_segments(p.offset);
    let f = from_date_segments(p.from_date);
    let t = to_date_segments(p.to_date);
    let s = sort_segments(p.sort);
    if segs.len() == 0 {
        assert(l.len() == 0 && o.len() == 0 && f.len() == 0 && t.len() == 0 && s.len() == 0);
        assert(p.limit is None && p.offset is None && p.from_date is None && p.to_date is None
            && p.sort is None);
        assert(segs =~= Seq::<Seq<char>>::empty());
        assert(spec_encode(p) == Seq::<char>::empty());
        assert(p == Parameters::spec_default());
    } else {
        lemma_segments_amp_free(p);
        crate::query::lemma_split_join(segs, '&');
        // the encoded string is nonempty: its first segment holds a key
        // and an equals sign
        let enc = spec_encode(p);
        assert(enc.len() > 0) by {
            assert(segs[0].len() > 0) by {
                if l.len() > 0 {
                    assert(segs[0] == l[0]);
                } else if o.len() > 0 {
                    assert(segs[0] == o[0]);
                } else if f.len() > 0 {
                    assert(segs[0] == f[0]);
                } else if t.len() > 0 {
                    assert(segs[0] == t[0]);
                } else {
                    assert(segs[0] == s[0]);
                }
            };
            if segs.len() == 1 {
                assert(enc == segs[0]);
            } else {
                assert(enc == segs[0] + seq!['&'] + spec_join(segs.skip(1), '&'));
            }
        };
        let d0 = Parameters::spec_default();
        lemma_fold_append(d0, l, o + f + t + s);
        lemma_fold_limit(d0, p.limit);
        let q1 = (match p.limit {
            Some(n) => d0.with_limit(n),
            None => d0,
        });
        lemma_fold_append(q1, o, f + t + s);
        lemma_fold_offset(q1, p.offset);
        let q2 = (match p.offset {
            Some(n) => q1.with_offset(n),
            None => q1,
        });
        lemma_fold_append(q2, f, t + s);
        lemma_fold_from_date(q2, p.from_date);
        let q3 = (match p.from_date {
            Some(d) => q2.with_from_date(d),
            None => q2,
        });
        lemma_fold_append(q3, t, s);
        lemma_fold_to_date(q3, p.to_date);
        let q4 = (match p.to_date {
            Some(d) => q3.with_to_date(d),
            None => q3,
        });
        lemma_fold_sort(q4, p.sort);
        let q5 = (match p.sort {
            Some(ss) => q4.with_sort(ss),
            None => q4,
        });
        assert(segs =~= l + (o + f + t + s));
        assert(o + f + t + s =~= o + (f + t + s));
        assert(f + t + s =~= f + (t + s));
        assert(spec_fold_segments(d0, segs) == Ok::<Parameters, DecodeError>(q5));
        assert(q5.limit == p.limit);
        assert(q5.offset == p.offset);
        assert(q5.from_date == p.from_date);
        assert(q5.to_date == p.to_date);
        assert(q5.sort == p.sort);
        assert(q5 == p);
    }
}

/// Build one `key=value` segment, escaping the value.
fn render_segment(key: &'static str, value: &str) -> (r: String)
    ensures
        r@ == spec_segment(key@, value@),
{
    let mut seg = key.to_owned();
    seg.push('=');
    let escaped = escape_component(value);
    seg.append(escaped.as_str());
    proof {
        assert(seg@ =~= spec_segment(key@, value@));
    }
    seg
}

/// Fold one raw segment into the parameter set.
fn apply_segment(p: Parameters, seg: &str) -> (r: Result<Parameters, DecodeError>)
    ensures
        r == spec_apply_segment(p, seg@),
{
    let (k, v) = split_pair(seg);
    proof {
        reveal_strlit("limit");
        reveal_strlit("offset");
        reveal_strlit("fromDateTime");
        reveal_strlit("toDateTime");
        reveal_strlit("sort");
        assert("limit"@ =~= key_limit());
        assert("offset"@ =~= key_offset());
        assert("fromDateTime"@ =~= key_from_date());
        assert("toDateTime"@ =~= key_to_date());
        assert("sort"@ =~= key_sort());
    }
    if str_eq(k.as_str(), "limit") {
        match unescape_component(v.as_str()) {
            Some(t) => match parse_u32(t.as_str()) {
                Some(n) => Ok(p.with_limit_exec(n)),
                None => Err(DecodeError::Limit),
            },
            None => Err(DecodeError::Limit),
        }
    } else if str_eq(k.as_str(), "offset") {
        match unescape_component(v.as_str()) {
            Some(t) => match parse_u32(t.as_str()) {
                Some(n) => Ok(p.with_offset_exec(n)),
                None => Err(DecodeError::Offset),
            },
            None => Err(DecodeError::Offset),
        }
    } else if str_eq(k.as_str(), "fromDateTime") {
        match unescape_component(v.as_str()) {
            Some(t) => match parse_datetime(t.as_str()) {
                Some(d) => Ok(p.with_from_date_exec(d)),
                None => Err(DecodeError::FromDate),
            },
            None => Err(DecodeError::FromDate),
        }
    } else if str_eq(k.as_str(), "toDateTime") {
        match unescape_component(v.as_str()) {
            Some(t) => match parse_datetime(t.as_str()) {
                Some(d) => Ok(p.with_to_date_exec(d)),
                None => Err(DecodeError::ToDate),
            },
            None => Err(DecodeError::ToDate),
        }
    } else if str_eq(k.as_str(), "sort") {
        match unescape_component(v.as_str()) {
            Some(t) => match Sort::from_str(t.as_str()) {
                Some(s) => Ok(p.with_sort_exec(s)),
                None => Err(DecodeError::Sort),
            },
            None => Err(DecodeError::Sort),
        }
    } else {
        Ok(p)
    }
}

impl Parameters {
    fn with_limit_exec(self, n: u32) -> (r: Parameters)
        ensures
            r == self.with_limit(n),
    {
        let mut q = self;
        q.limit = Some(n);
        q
    }

    fn with_offset_exec(self, n: u32) -> (r: Parameters)
        ensures
            r == self.with_offset(n),
    {
        let mut q = self;
        q.offset = Some(n);
        q
    }

    fn with_from_date_exec(self, d: DateTime) -> (r: Parameters)
        ensures
            r == self.with_from_date(d),
    {
        let mut q = self;
        q.from_date = Some(d);
        q
    }

    fn with_to_date_exec(self, d: DateTime) -> (r: Parameters)
        ensures
            r == self.with_to_date(d),
    {
        let mut q = self;
        q.to_date = Some(d);
        q
    }

    fn with_sort_exec(self, s: Sort) -> (r: Parameters)
        ensures
            r == self.with_sort(s),
    {
        let mut q = self;
        q.sort = Some(s);
        q
    }
}

} // verus!

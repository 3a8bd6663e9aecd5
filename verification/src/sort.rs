//! Sort orders for list requests and their wire tokens. The token carries a
//! space (`updateDate asc`), which the query-string layer escapes as `+`.

use vstd::prelude::*;
use crate::text::str_eq;

verus! {

#[derive(Clone, Copy, Debug, PartialEq, Eq, Structural)]
pub enum Sort {
    /// Sort by the item's update date in ascending order
    UpdateDateAscending,
    /// Sort by the item's update date in descending order
    UpdateDateDescending,
}

/// The sort token before query-string escaping.
pub open spec fn spec_sort_token(s: Sort) -> Seq<char> {
    match s {
        Sort::UpdateDateAscending => seq![
            'u',
            'p',
            'd',
            'a',
            't',
            'e',
            'D',
            'a',
            't',
            'e',
            ' ',
            'a',
            's',
            'c',
        ],
        Sort::UpdateDateDescending => seq![
            'u',
            'p',
            'd',
            'a',
            't',
            'e',
            'D',
            'a',
            't',
            'e',
            ' ',
            'd',
            'e',
            's',
            'c',
        ],
    }
}

/// What decoding a sort token yields.
pub open spec fn spec_sort_from(s: Seq<char>) -> Option<Sort> {
    if s == spec_sort_token(Sort::UpdateDateAscending) {
        Some(Sort::UpdateDateAscending)
    } else if s == spec_sort_token(Sort::UpdateDateDescending) {
        Some(Sort::UpdateDateDescending)
    } else {
        None
    }
}

/// Encoding then decoding gives the sort order back.
pub proof fn lemma_sort_roundtrip(s: Sort)
    ensures
        spec_sort_from(spec_sort_token(s)) == Some(s),
{
    assert(spec_sort_token(Sort::UpdateDateAscending) != spec_sort_token(
        Sort::UpdateDateDescending,
    )) by {
        assert(spec_sort_token(Sort::UpdateDateAscending).len() != spec_sort_token(
            Sort::UpdateDateDescending,
        ).len());
    };
}

impl Sort {
    /// The unescaped wire token.
    pub fn as_str(&self) -> (r: &'static str)
        ensures
            r@ == spec_sort_token(*self),
    {
        match self {
            Sort::UpdateDateAscending => {
                proof {
                    reveal_strlit("updateDate asc");
                    assert("updateDate asc"@ =~= spec_sort_token(*self));
                }
                "updateDate asc"
            },
            Sort::UpdateDateDescending => {
                proof {
                    reveal_strlit("updateDate desc");
                    assert("updateDate desc"@ =~= spec_sort_token(*self));
                }
                "updateDate desc"
            },
        }
    }

    /// Decode an unescaped wire token.
    pub fn from_str(s: &str) -> (r: Option<Sort>)
        ensures
            r == spec_sort_from(s@),
    {
        proof {
            reveal_strlit("updateDate asc");
            reveal_strlit("updateDate desc");
            assert("updateDate asc"@ =~= spec_sort_token(Sort::UpdateDateAscending));
            assert("updateDate desc"@ =~= spec_sort_token(Sort::UpdateDateDescending));
        }
        if str_eq(s, "updateDate asc") {
            Some(Sort::UpdateDateAscending)
        } else if str_eq(s, "updateDate desc") {
            Some(Sort::UpdateDateDescending)
        } else {
            None
        }
    }
}

} // verus!

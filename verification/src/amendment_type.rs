//! Amendment categories and their wire tokens; decoding accepts any casing.

use vstd::prelude::*;
use crate::text::{spec_to_upper, str_eq, str_to_upper};

verus! {

#[derive(Clone, Copy, Debug, PartialEq, Eq, Structural)]
pub enum AmendmentType {
    House,
    Senate,
}

/// The lower-case wire token of an amendment category.
pub open spec fn spec_amendment_type_code(t: AmendmentType) -> Seq<char> {
    match t {
        AmendmentType::House => seq!['h', 'a', 'm', 'd', 't'],
        AmendmentType::Senate => seq!['s', 'a', 'm', 'd', 't'],
    }
}

/// What decoding an amendment-category token yields, for any casing.
pub open spec fn spec_amendment_type_from(s: Seq<char>) -> Option<AmendmentType> {
    let u = spec_to_upper(s);
    if u == seq!['H', 'A', 'M', 'D', 'T'] {
        Some(AmendmentType::House)
    } else if u == seq!['S', 'A', 'M', 'D', 'T'] {
        Some(AmendmentType::Senate)
    } else {
        None
    }
}

/// Two spellings that agree up to ASCII case decode to the same category.
pub proof fn lemma_amendment_type_case_insensitive(s1: Seq<char>, s2: Seq<char>)
    requires
        spec_to_upper(s1) == spec_to_upper(s2),
    ensures
        spec_amendment_type_from(s1) == spec_amendment_type_from(s2),
{
}

/// Encoding then decoding gives the category back.
pub proof fn lemma_amendment_type_roundtrip(t: AmendmentType)
    ensures
        spec_amendment_type_from(spec_amendment_type_code(t)) == Some(t),
{
    match t {
        AmendmentType::House => {
            assert(spec_to_upper(spec_amendment_type_code(t)) =~= seq!['H', 'A', 'M', 'D', 'T']);
        },
        AmendmentType::Senate => {
            assert(spec_to_upper(spec_amendment_type_code(t)) =~= seq!['S', 'A', 'M', 'D', 'T']);
        },
    }
}

impl AmendmentType {
    /// The lower-case wire token, as the path builder sends it.
    pub fn as_str(&self) -> (r: &'static str)
        ensures
            r@ == spec_amendment_type_code(*self),
    {
        match self {
            AmendmentType::House => {
                proof {
                    reveal_strlit("hamdt");
                    assert("hamdt"@ =~= spec_amendment_type_code(*self));
                }
                "hamdt"
            },
            AmendmentType::Senate => {
                proof {
                    reveal_strlit("samdt");
                    assert("samdt"@ =~= spec_amendment_type_code(*self));
                }
                "samdt"
            },
        }
    }

    /// Decode a wire token of any casing.
    pub fn from_str(s: &str) -> (r: Option<AmendmentType>)
        ensures
            r == spec_amendment_type_from(s@),
    {
        let u = str_to_upper(s);
        proof {
            reveal_strlit("HAMDT");
            reveal_strlit("SAMDT");
            assert("HAMDT"@ =~= seq!['H', 'A', 'M', 'D', 'T']);
            assert("SAMDT"@ =~= seq!['S', 'A', 'M', 'D', 'T']);
        }
        if str_eq(u.as_str(), "HAMDT") {
            Some(AmendmentType::House)
        } else if str_eq(u.as_str(), "SAMDT") {
            Some(AmendmentType::Senate)
        } else {
            None
        }
    }
}

} // verus!

//! Bill categories and their wire tokens. The server emits upper-case
//! tokens in response bodies and expects lower-case tokens in paths;
//! decoding accepts any casing.

use vstd::prelude::*;
use crate::text::{spec_to_upper, str_eq, str_to_upper};

verus! {

#[derive(Clone, Copy, Debug, PartialEq, Eq, Structural)]
pub enum BillType {
    /// House bill
    House,
    /// Senate bill
    Senate,
    /// House joint resolution
    HouseJointResolution,
    /// Senate joint resolution
    SenateJointResolution,
    /// House concurrent resolution
    HouseConcurrentResolution,
    /// Senate concurrent resolution
    SenateConcurrentResolution,
    /// House resolution
    HouseResolution,
    /// Senate resolution
    SenateResolution,
}

/// The lower-case wire token of a bill category, as it appears in paths.
pub open spec fn spec_bill_type_code(t: BillType) -> Seq<char> {
    match t {
        BillType::House => seq!['h', 'r'],
        BillType::Senate => seq!['s'],
        BillType::HouseJointResolution => seq!['h', 'j', 'r', 'e', 's'],
        BillType::SenateJointResolution => seq!['s', 'j', 'r', 'e', 's'],
        BillType::HouseConcurrentResolution => seq!['h', 'c', 'o', 'n', 'r', 'e', 's'],
        BillType::SenateConcurrentResolution => seq!['s', 'c', 'o', 'n', 'r', 'e', 's'],
        BillType::HouseResolution => seq!['h', 'r', 'e', 's'],
        BillType::SenateResolution => seq!['s', 'r', 'e', 's'],
    }
}

/// What decoding a bill-category token yields, for any casing of the input.
pub open spec fn spec_bill_type_from(s: Seq<char>) -> Option<BillType> {
    let u = spec_to_upper(s);
    if u == seq!['H', 'R'] {
        Some(BillType::House)
    } else if u == seq!['S'] {
        Some(BillType::Senate)
    } else if u == seq!['H', 'J', 'R', 'E', 'S'] {
        Some(BillType::HouseJointResolution)
    } else if u == seq!['S', 'J', 'R', 'E', 'S'] {
        Some(BillType::SenateJointResolution)
    } else if u == seq!['H', 'C', 'O', 'N', 'R', 'E', 'S'] {
        Some(BillType::HouseConcurrentResolution)
    } else if u == seq!['S', 'C', 'O', 'N', 'R', 'E', 'S'] {
        Some(BillType::SenateConcurrentResolution)
    } else if u == seq!['H', 'R', 'E', 'S'] {
        Some(BillType::HouseResolution)
    } else if u == seq!['S', 'R', 'E', 'S'] {
        Some(BillType::SenateResolution)
    } else {
        None
    }
}

/// Two spellings that agree up to ASCII case decode to the same category.
pub proof fn lemma_bill_type_case_insensitive(s1: Seq<char>, s2: Seq<char>)
    requires
        spec_to_upper(s1) == spec_to_upper(s2),
    ensures
        spec_bill_type_from(s1) == spec_bill_type_from(s2),
{
}

/// Encoding then decoding gives the category back.
pub proof fn lemma_bill_type_roundtrip(t: BillType)
    ensures
        spec_bill_type_from(spec_bill_type_code(t)) == Some(t),
{
    match t {
        BillType::House => {
            assert(spec_to_upper(spec_bill_type_code(t)) =~= seq!['H', 'R']);
        },
        BillType::Senate => {
            assert(spec_to_upper(spec_bill_type_code(t)) =~= seq!['S']);
        },
        BillType::HouseJointResolution => {
            assert(spec_to_upper(spec_bill_type_code(t)) =~= seq!['H', 'J', 'R', 'E', 'S']);
        },
        BillType::SenateJointResolution => {
            assert(spec_to_upper(spec_bill_type_code(t)) =~= seq!['S', 'J', 'R', 'E', 'S']);
        },
        BillType::HouseConcurrentResolution => {
            assert(spec_to_upper(spec_bill_type_code(t)) =~= seq![
                'H',
                'C',
                'O',
                'N',
                'R',
                'E',
                'S',
            ]);
        },
        BillType::SenateConcurrentResolution => {
            assert(spec_to_upper(spec_bill_type_code(t)) =~= seq![
                'S',
                'C',
                'O',
                'N',
                'R',
                'E',
                'S',
            ]);
        },
        BillType::HouseResolution => {
            assert(spec_to_upper(spec_bill_type_code(t)) =~= seq!['H', 'R', 'E', 'S']);
        },
        BillType::SenateResolution => {
            assert(spec_to_upper(spec_bill_type_code(t)) =~= seq!['S', 'R', 'E', 'S']);
        },
    }
}

impl BillType {
    /// The lower-case wire token, as the path builder sends it.
    pub fn as_str(&self) -> (r: &'static str)
        ensures
            r@ == spec_bill_type_code(*self),
    {
        match self {
            BillType::House => {
                proof {
                    reveal_strlit("hr");
                    assert("hr"@ =~= spec_bill_type_code(*self));
                }
                "hr"
            },
            BillType::Senate => {
                proof {
                    reveal_strlit("s");
                    assert("s"@ =~= spec_bill_type_code(*self));
                }
                "s"
            },
            BillType::HouseJointResolution => {
                proof {
                    reveal_strlit("hjres");
                    assert("hjres"@ =~= spec_bill_type_code(*self));
                }
                "hjres"
            },
            BillType::SenateJointResolution => {
                proof {
                    reveal_strlit("sjres");
                    assert("sjres"@ =~= spec_bill_type_code(*self));
                }
                "sjres"
            },
            BillType::HouseConcurrentResolution => {
                proof {
                    reveal_strlit("hconres");
                    assert("hconres"@ =~= spec_bill_type_code(*self));
                }
                "hconres"
            },
            BillType::SenateConcurrentResolution => {
                proof {
                    reveal_strlit("sconres");
                    assert("sconres"@ =~= spec_bill_type_code(*self));
                }
                "sconres"
            },
            BillType::HouseResolution => {
                proof {
                    reveal_strlit("hres");
                    assert("hres"@ =~= spec_bill_type_code(*self));
                }
                "hres"
            },
            BillType::SenateResolution => {
                proof {
                    reveal_strlit("sres");
                    assert("sres"@ =~= spec_bill_type_code(*self));
                }
                "sres"
            },
        }
    }

    /// Decode a wire token of any casing.
    pub fn from_str(s: &str) -> (r: Option<BillType>)
        ensures
            r == spec_bill_type_from(s@),
    {
        let u = str_to_upper(s);
        proof {
            reveal_strlit("HR");
            reveal_strlit("S");
            reveal_strlit("HJRES");
            reveal_strlit("SJRES");
            reveal_strlit("HCONRES");
            reveal_strlit("SCONRES");
            reveal_strlit("HRES");
            reveal_strlit("SRES");
            assert("HR"@ =~= seq!['H', 'R']);
            assert("S"@ =~= seq!['S']);
            assert("HJRES"@ =~= seq!['H', 'J', 'R', 'E', 'S']);
            assert("SJRES"@ =~= seq!['S', 'J', 'R', 'E', 'S']);
            assert("HCONRES"@ =~= seq!['H', 'C', 'O', 'N', 'R', 'E', 'S']);
            assert("SCONRES"@ =~= seq!['S', 'C', 'O', 'N', 'R', 'E', 'S']);
            assert("HRES"@ =~= seq!['H', 'R', 'E', 'S']);
            assert("SRES"@ =~= seq!['S', 'R', 'E', 'S']);
        }
        if str_eq(u.as_str(), "HR") {
            Some(BillType::House)
        } else if str_eq(u.as_str(), "S") {
            Some(BillType::Senate)
        } else if str_eq(u.as_str(), "HJRES") {
            Some(BillType::HouseJointResolution)
        } else if str_eq(u.as_str(), "SJRES") {
            Some(BillType::SenateJointResolution)
        } else if str_eq(u.as_str(), "HCONRES") {
            Some(BillType::HouseConcurrentResolution)
        } else if str_eq(u.as_str(), "SCONRES") {
            Some(BillType::SenateConcurrentResolution)
        } else if str_eq(u.as_str(), "HRES") {
            Some(BillType::HouseResolution)
        } else if str_eq(u.as_str(), "SRES") {
            Some(BillType::SenateResolution)
        } else {
            None
        }
    }
}

} // verus!

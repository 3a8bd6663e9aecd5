//! The two chambers, and the single-letter chamber codes some
//! sub-resources use.

use vstd::prelude::*;
use crate::text::str_eq;

verus! {

#[derive(Clone, Copy, Debug, PartialEq, Eq, Structural)]
pub enum Chamber {
    House,
    Senate,
}

#[derive(Clone, Copy, Debug, PartialEq, Eq, Structural)]
pub enum ChamberCode {
    H,
    S,
}

/// The wire name of a chamber as response bodies carry it.
pub open spec fn spec_chamber_name(c: Chamber) -> Seq<char> {
    match c {
        Chamber::House => seq!['H', 'o', 'u', 's', 'e'],
        Chamber::Senate => seq!['S', 'e', 'n', 'a', 't', 'e'],
    }
}

pub open spec fn spec_chamber_from(s: Seq<char>) -> Option<Chamber> {
    if s == seq!['H', 'o', 'u', 's', 'e'] {
        Some(Chamber::House)
    } else if s == seq!['S', 'e', 'n', 'a', 't', 'e'] {
        Some(Chamber::Senate)
    } else {
        None
    }
}

/// Encoding then decoding gives the chamber back.
pub proof fn lemma_chamber_roundtrip(c: Chamber)
    ensures
        spec_chamber_from(spec_chamber_name(c)) == Some(c),
{
}

impl Chamber {
    pub fn as_str(&self) -> (r: &'static str)
        ensures
            r@ == spec_chamber_name(*self),
    {
        match self {
            Chamber::House => {
                proof {
                    reveal_strlit("House");
                    assert("House"@ =~= spec_chamber_name(*self));
                }
                "House"
            },
            Chamber::Senate => {
                proof {
                    reveal_strlit("Senate");
                    assert("Senate"@ =~= spec_chamber_name(*self));
                }
                "Senate"
            },
        }
    }

    pub fn from_str(s: &str) -> (r: Option<Chamber>)
        ensures
            r == spec_chamber_from(s@),
    {
        proof {
            reveal_strlit("House");
            reveal_strlit("Senate");
            assert("House"@ =~= seq!['H', 'o', 'u', 's', 'e']);
            assert("Senate"@ =~= seq!['S', 'e', 'n', 'a', 't', 'e']);
        }
        if str_eq(s, "House") {
            Some(Chamber::House)
        } else if str_eq(s, "Senate") {
            Some(Chamber::Senate)
        } else {
            None
        }
    }
}

/// The wire letter of a chamber code.
pub open spec fn spec_chamber_code_letter(c: ChamberCode) -> Seq<char> {
    match c {
        ChamberCode::H => seq!['H'],
        ChamberCode::S => seq!['S'],
    }
}

pub open spec fn spec_chamber_code_from(s: Seq<char>) -> Option<ChamberCode> {
    if s == seq!['H'] {
        Some(ChamberCode::H)
    } else if s == seq!['S'] {
        Some(ChamberCode::S)
    } else {
        None
    }
}

/// Encoding then decoding gives the code back.
pub proof fn lemma_chamber_code_roundtrip(c: ChamberCode)
    ensures
        spec_chamber_code_from(spec_chamber_code_letter(c)) == Some(c),
{
    assert(seq!['H'][0] != seq!['S'][0]);
    assert(seq!['H'] != seq!['S']);
}

impl ChamberCode {
    pub fn as_str(&self) -> (r: &'static str)
        ensures
            r@ == spec_chamber_code_letter(*self),
    {
        match self {
            ChamberCode::H => {
                proof {
                    reveal_strlit("H");
                    assert("H"@ =~= spec_chamber_code_letter(*self));
                }
                "H"
            },
            ChamberCode::S => {
                proof {
                    reveal_strlit("S");
                    assert("S"@ =~= spec_chamber_code_letter(*self));
                }
                "S"
            },
        }
    }

    pub fn from_str(s: &str) -> (r: Option<ChamberCode>)
        ensures
            r == spec_chamber_code_from(s@),
    {
        proof {
            reveal_strlit("H");
            reveal_strlit("S");
            assert("H"@ =~= seq!['H']);
            assert("S"@ =~= seq!['S']);
        }
        if str_eq(s, "H") {
            Some(ChamberCode::H)
        } else if str_eq(s, "S") {
            Some(ChamberCode::S)
        } else {
            None
        }
    }
}

} // verus!

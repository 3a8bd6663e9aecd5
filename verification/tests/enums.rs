use congress::amendment_type::AmendmentType;
use congress::bill_type::BillType;
use congress::chamber::{Chamber, ChamberCode};
use congress::sort::Sort;

#[test]
fn bill_type_wire_tokens() {
    let table = vec![
        (BillType::House, "hr"),
        (BillType::Senate, "s"),
        (BillType::HouseJointResolution, "hjres"),
        (BillType::SenateJointResolution, "sjres"),
        (BillType::HouseConcurrentResolution, "hconres"),
        (BillType::SenateConcurrentResolution, "sconres"),
        (BillType::HouseResolution, "hres"),
        (BillType::SenateResolution, "sres"),
    ];
    for (t, token) in table {
        assert_eq!(t.as_str(), token);
        assert_eq!(BillType::from_str(token), Some(t));
    }
}

#[test]
fn bill_type_decoding_ignores_case() {
    assert_eq!(BillType::from_str("hr"), Some(BillType::House));
    assert_eq!(BillType::from_str("HR"), Some(BillType::House));
    assert_eq!(BillType::from_str("Hr"), Some(BillType::House));
    assert_eq!(BillType::from_str("sConReS"), Some(BillType::SenateConcurrentResolution));
}

#[test]
fn bill_type_rejects_unknown_tokens() {
    assert_eq!(BillType::from_str(""), None);
    assert_eq!(BillType::from_str("hrx"), None);
    assert_eq!(BillType::from_str("bill"), None);
}

#[test]
fn amendment_type_wire_tokens() {
    assert_eq!(AmendmentType::House.as_str(), "hamdt");
    assert_eq!(AmendmentType::Senate.as_str(), "samdt");
    assert_eq!(AmendmentType::from_str("hamdt"), Some(AmendmentType::House));
    assert_eq!(AmendmentType::from_str("HAMDT"), Some(AmendmentType::House));
    assert_eq!(AmendmentType::from_str("SaMdT"), Some(AmendmentType::Senate));
    assert_eq!(AmendmentType::from_str("amdt"), None);
}

#[test]
fn chamber_wire_names() {
    assert_eq!(Chamber::House.as_str(), "House");
    assert_eq!(Chamber::Senate.as_str(), "Senate");
    assert_eq!(Chamber::from_str("House"), Some(Chamber::House));
    assert_eq!(Chamber::from_str("Senate"), Some(Chamber::Senate));
    assert_eq!(Chamber::from_str("house"), None);
    assert_eq!(ChamberCode::H.as_str(), "H");
    assert_eq!(ChamberCode::S.as_str(), "S");
    assert_eq!(ChamberCode::from_str("H"), Some(ChamberCode::H));
    assert_eq!(ChamberCode::from_str("S"), Some(ChamberCode::S));
    assert_eq!(ChamberCode::from_str("X"), None);
}

#[test]
fn sort_wire_tokens() {
    assert_eq!(Sort::UpdateDateAscending.as_str(), "updateDate asc");
    assert_eq!(Sort::UpdateDateDescending.as_str(), "updateDate desc");
    assert_eq!(Sort::from_str("updateDate asc"), Some(Sort::UpdateDateAscending));
    assert_eq!(Sort::from_str("updateDate desc"), Some(Sort::UpdateDateDescending));
    assert_eq!(Sort::from_str("updateDate+asc"), None);
}

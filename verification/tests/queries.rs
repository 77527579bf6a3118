use qclib::{
    derived_total, AttrEntry, AttrResponse, AttrValue, AttributeId, Error, ErrorKind, LayerData,
    QueryCapacity,
};

fn layer(entries: Vec<(u32, AttrResponse)>) -> LayerData {
    LayerData {
        entries: entries
            .into_iter()
            .map(|(code, response)| AttrEntry { code, response })
            .collect(),
    }
}

fn one_layer(entries: Vec<(u32, AttrResponse)>) -> QueryCapacity {
    QueryCapacity::from_layers(vec![layer(entries)])
}

#[test]
fn int_query_present_absent_and_error() {
    let qc = one_layer(vec![
        (
            AttributeId::NumCoreTotal.as_raw(),
            AttrResponse::Present(AttrValue::Int(5)),
        ),
        (AttributeId::NumCoreShared.as_raw(), AttrResponse::Absent),
        (AttributeId::NumCoreDedicated.as_raw(), AttrResponse::Fail(-3)),
    ]);
    assert_eq!(
        qc.get_attribute_int(0, AttributeId::NumCoreTotal),
        Ok(Some(5))
    );
    assert_eq!(qc.get_attribute_int(0, AttributeId::NumCoreShared), Ok(None));
    // An attribute without a recorded answer is absent, not an error.
    assert_eq!(qc.get_attribute_int(0, AttributeId::NumCpTotal), Ok(None));
    assert_eq!(
        qc.get_attribute_int(0, AttributeId::NumCoreDedicated),
        Err(Error { kind: ErrorKind::Query { code: -3 } })
    );
}

#[test]
fn string_query_present_absent_and_error() {
    let qc = one_layer(vec![
        (
            AttributeId::Manufacturer.as_raw(),
            AttrResponse::Present(AttrValue::Str(String::from("IBM"))),
        ),
        (AttributeId::Model.as_raw(), AttrResponse::Absent),
        (AttributeId::Plant.as_raw(), AttrResponse::Fail(-7)),
    ]);
    assert_eq!(
        qc.get_attribute_string(0, AttributeId::Manufacturer),
        Ok(Some(String::from("IBM")))
    );
    assert_eq!(qc.get_attribute_string(0, AttributeId::Model), Ok(None));
    assert_eq!(
        qc.get_attribute_string(0, AttributeId::SequenceCode),
        Ok(None)
    );
    assert_eq!(
        qc.get_attribute_string(0, AttributeId::Plant),
        Err(Error { kind: ErrorKind::Query { code: -7 } })
    );
}

#[test]
fn float_query_carries_the_exact_bit_pattern() {
    let bits = 2.5f32.to_bits();
    let qc = one_layer(vec![
        (
            AttributeId::Capability.as_raw(),
            AttrResponse::Present(AttrValue::Float(bits)),
        ),
        (
            AttributeId::SecondaryCapability.as_raw(),
            AttrResponse::Absent,
        ),
    ]);
    let got = qc.get_attribute_float(0, AttributeId::Capability).unwrap();
    assert_eq!(got, Some(bits));
    assert_eq!(f32::from_bits(got.unwrap()), 2.5f32);
    assert_eq!(
        qc.get_attribute_float(0, AttributeId::SecondaryCapability),
        Ok(None)
    );
}

#[test]
fn kind_mismatch_is_a_catalog_violation_not_a_value() {
    // The provider broke its contract: a textual value under an integer
    // identifier, and an integer under a textual one.
    let qc = one_layer(vec![
        (
            AttributeId::NumCoreTotal.as_raw(),
            AttrResponse::Present(AttrValue::Str(String::from("five"))),
        ),
        (
            AttributeId::Manufacturer.as_raw(),
            AttrResponse::Present(AttrValue::Int(31)),
        ),
    ]);
    assert_eq!(
        qc.get_attribute_int(0, AttributeId::NumCoreTotal),
        Err(Error { kind: ErrorKind::CatalogViolation {
            raw: AttributeId::NumCoreTotal.as_raw() as i64
        } })
    );
    assert_eq!(
        qc.get_attribute_string(0, AttributeId::Manufacturer),
        Err(Error { kind: ErrorKind::CatalogViolation {
            raw: AttributeId::Manufacturer.as_raw() as i64
        } })
    );
}

#[test]
fn alias_and_canonical_name_retrieve_the_identical_value() {
    let qc = one_layer(vec![
        (
            AttributeId::LimithardConsumption.as_raw(),
            AttrResponse::Present(AttrValue::Int(1)),
        ),
        (
            AttributeId::MobilityEnabled.as_raw(),
            AttrResponse::Present(AttrValue::Int(0)),
        ),
    ]);
    let canonical = qc.get_attribute_int(0, AttributeId::LimithardConsumption);
    let alias = qc.get_attribute_int(0, AttributeId::HardlimitConsumption);
    assert_eq!(canonical, Ok(Some(1)));
    assert_eq!(canonical, alias);
    let canonical = qc.get_attribute_int(0, AttributeId::MobilityEnabled);
    let alias = qc.get_attribute_int(0, AttributeId::MobilityEligible);
    assert_eq!(canonical, Ok(Some(0)));
    assert_eq!(canonical, alias);
}

#[test]
fn first_recorded_answer_wins() {
    let qc = one_layer(vec![
        (
            AttributeId::NumCoreTotal.as_raw(),
            AttrResponse::Present(AttrValue::Int(4)),
        ),
        (
            AttributeId::NumCoreTotal.as_raw(),
            AttrResponse::Present(AttrValue::Int(9)),
        ),
    ]);
    assert_eq!(
        qc.get_attribute_int(0, AttributeId::NumCoreTotal),
        Ok(Some(4))
    );
}

#[test]
fn derived_total_needs_both_components() {
    assert_eq!(derived_total(Some(2), Some(3)), Some(5));
    assert_eq!(derived_total(Some(2), None), None);
    assert_eq!(derived_total(None, Some(3)), None);
    assert_eq!(derived_total(None, None), None);
    assert_eq!(derived_total(Some(0), Some(0)), Some(0));
    // Summing never wraps: the components are 32-bit, the total 64-bit.
    assert_eq!(
        derived_total(Some(i32::MAX), Some(i32::MAX)),
        Some(2 * i32::MAX as i64)
    );
}

#[test]
fn status_classification_for_snapshot_building() {
    assert_eq!(
        AttrResponse::from_status_int(1, 7),
        AttrResponse::Present(AttrValue::Int(7))
    );
    assert_eq!(AttrResponse::from_status_int(0, 7), AttrResponse::Absent);
    assert_eq!(AttrResponse::from_status_int(-5, 7), AttrResponse::Fail(-5));
    assert_eq!(
        AttrResponse::from_status_str(1, String::from("LPAR1")),
        AttrResponse::Present(AttrValue::Str(String::from("LPAR1")))
    );
    assert_eq!(
        AttrResponse::from_status_str(0, String::new()),
        AttrResponse::Absent
    );
    let bits = 1.5f32.to_bits();
    assert_eq!(
        AttrResponse::from_status_float(1, bits),
        AttrResponse::Present(AttrValue::Float(bits))
    );
    assert_eq!(
        AttrResponse::from_status_float(-2, bits),
        AttrResponse::Fail(-2)
    );
}

#[test]
fn attach_and_count_status_decoding() {
    assert_eq!(qclib::decode_attach_status(0), Ok(()));
    assert_eq!(qclib::decode_attach_status(3), Ok(()));
    assert_eq!(
        qclib::decode_attach_status(-1),
        Err(Error { kind: ErrorKind::Attach { code: -1 } })
    );
    assert_eq!(qclib::decode_count_status(0, 3), Ok(3));
    assert_eq!(
        qclib::decode_count_status(-2, 3),
        Err(Error { kind: ErrorKind::Query { code: -2 } })
    );
    assert_eq!(
        qclib::decode_count_status(0, -1),
        Err(Error { kind: ErrorKind::CatalogViolation { raw: -1 } })
    );
}

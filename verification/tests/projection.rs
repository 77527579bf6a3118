use qclib::{
    AttrEntry, AttrResponse, AttrValue, AttributeId, Error, ErrorKind, JsonVal, Layer, LayerData,
    LayerType, QueryCapacity,
};

fn entry(id: AttributeId, response: AttrResponse) -> AttrEntry {
    AttrEntry {
        code: id.as_raw(),
        response,
    }
}

fn present_int(id: AttributeId, v: i32) -> AttrEntry {
    entry(id, AttrResponse::Present(AttrValue::Int(v)))
}

fn present_str(id: AttributeId, s: &str) -> AttrEntry {
    entry(id, AttrResponse::Present(AttrValue::Str(String::from(s))))
}

fn cec_layer() -> LayerData {
    LayerData {
        entries: vec![
            present_int(AttributeId::LayerTypeNum, 1),
            present_int(AttributeId::LayerCategoryNum, 2),
            present_str(AttributeId::LayerName, "M1"),
            present_str(AttributeId::Manufacturer, "IBM"),
            present_int(AttributeId::NumCoreDedicated, 2),
            present_int(AttributeId::NumCoreShared, 3),
            entry(
                AttributeId::Capability,
                AttrResponse::Present(AttrValue::Float(108.25f32.to_bits())),
            ),
        ],
    }
}

#[test]
fn layer_projection_always_carries_the_common_fields() {
    let qc = QueryCapacity::from_layers(vec![cec_layer()]);
    let layer = Layer { qc: &qc, layer: 0 };
    let obj = layer.to_json().unwrap();
    assert_eq!(obj.get("layer_type_num"), Some(&JsonVal::Int(1)));
    assert_eq!(obj.get("layer_category_num"), Some(&JsonVal::Int(2)));
    assert_eq!(
        obj.get("layer_type"),
        Some(&JsonVal::Str(String::from("CEC")))
    );
    assert_eq!(
        obj.get("layer_category"),
        Some(&JsonVal::Str(String::from("HOST")))
    );
    assert_eq!(
        obj.get("layer_name"),
        Some(&JsonVal::Str(String::from("M1")))
    );
    // The five common fields open the projection, in order.
    assert_eq!(obj.entries[0].key, "layer_type_num");
    assert_eq!(obj.entries[1].key, "layer_category_num");
    assert_eq!(obj.entries[2].key, "layer_type");
    assert_eq!(obj.entries[3].key, "layer_category");
    assert_eq!(obj.entries[4].key, "layer_name");
}

#[test]
fn absent_layer_name_serializes_as_explicit_null() {
    let layer_data = LayerData {
        entries: vec![
            present_int(AttributeId::LayerTypeNum, 1),
            present_int(AttributeId::LayerCategoryNum, 2),
        ],
    };
    let qc = QueryCapacity::from_layers(vec![layer_data]);
    let layer = Layer { qc: &qc, layer: 0 };
    let obj = layer.to_json().unwrap();
    assert_eq!(obj.get("layer_name"), Some(&JsonVal::Null));
}

#[test]
fn cec_projection_has_a_stable_shape_with_explicit_nulls() {
    let qc = QueryCapacity::from_layers(vec![cec_layer()]);
    let layer = Layer { qc: &qc, layer: 0 };
    let obj = layer.to_json().unwrap();
    // 5 common fields plus the full CEC field set, present or not.
    assert_eq!(obj.len(), 36);
    assert_eq!(
        obj.get("manufacturer"),
        Some(&JsonVal::Str(String::from("IBM")))
    );
    assert_eq!(obj.get("num_core_dedicated"), Some(&JsonVal::Int(2)));
    assert_eq!(obj.get("num_core_shared"), Some(&JsonVal::Int(3)));
    // Absent attributes appear as null, never disappear.
    assert_eq!(obj.get("model"), Some(&JsonVal::Null));
    assert_eq!(obj.get("num_core_total"), Some(&JsonVal::Null));
    assert_eq!(obj.get("sequence_code"), Some(&JsonVal::Null));
    // Floating-point values keep their exact bit pattern.
    assert_eq!(
        obj.get("capability"),
        Some(&JsonVal::Float(108.25f32.to_bits()))
    );
    assert_eq!(obj.get("secondary_capability"), Some(&JsonVal::Null));
}

#[test]
fn projection_propagates_the_first_query_failure() {
    let layer_data = LayerData {
        entries: vec![
            present_int(AttributeId::LayerTypeNum, 1),
            present_int(AttributeId::LayerCategoryNum, 2),
            entry(AttributeId::Manufacturer, AttrResponse::Fail(-9)),
        ],
    };
    let qc = QueryCapacity::from_layers(vec![layer_data]);
    let layer = Layer { qc: &qc, layer: 0 };
    assert_eq!(layer.to_json(), Err(Error { kind: ErrorKind::Query { code: -9 } }));
}

#[test]
fn projection_fails_fatally_without_the_common_attributes() {
    let qc = QueryCapacity::from_layers(vec![LayerData { entries: vec![] }]);
    let layer = Layer { qc: &qc, layer: 0 };
    assert_eq!(
        layer.to_json(),
        Err(Error { kind: ErrorKind::CatalogViolation {
            raw: AttributeId::LayerTypeNum.as_raw() as i64
        } })
    );
}

#[test]
fn unimplemented_kind_is_an_explicit_error_not_a_guessed_shape() {
    let layer_data = LayerData {
        entries: vec![
            present_int(AttributeId::LayerTypeNum, 8),
            present_int(AttributeId::LayerCategoryNum, 3),
        ],
    };
    let qc = QueryCapacity::from_layers(vec![layer_data]);
    let layer = Layer { qc: &qc, layer: 0 };
    assert_eq!(layer.layer_type(), Ok(LayerType::LparGroup));
    assert!(matches!(
        layer.details(),
        Err(Error { kind: ErrorKind::UnimplementedKind {
            layer_type: LayerType::LparGroup
        } })
    ));
    assert_eq!(
        layer.to_json(),
        Err(Error { kind: ErrorKind::UnimplementedKind {
            layer_type: LayerType::LparGroup
        } })
    );
}

#[test]
fn kvm_guest_serializes_core_counts_under_cpu_field_names() {
    let layer_data = LayerData {
        entries: vec![
            present_int(AttributeId::LayerTypeNum, 7),
            present_int(AttributeId::LayerCategoryNum, 1),
            present_int(AttributeId::NumCoreTotal, 4),
            present_int(AttributeId::NumIflTotal, 4),
        ],
    };
    let qc = QueryCapacity::from_layers(vec![layer_data]);
    let layer = Layer { qc: &qc, layer: 0 };
    let obj = layer.to_json().unwrap();
    // The cpu-named field reads the core-counting attribute.
    assert_eq!(obj.get("num_cpu_total"), Some(&JsonVal::Int(4)));
    assert_eq!(obj.get("num_core_total"), None);
    assert_eq!(obj.get("num_ifl_total"), Some(&JsonVal::Int(4)));
}

#[test]
fn whole_stack_document_is_labeled_bottom_to_top() {
    let upper = LayerData {
        entries: vec![
            present_int(AttributeId::LayerTypeNum, 2),
            present_int(AttributeId::LayerCategoryNum, 1),
            present_str(AttributeId::LayerName, "LP01"),
        ],
    };
    let qc = QueryCapacity::from_layers(vec![cec_layer(), upper]);
    let doc = qc.to_json().unwrap();
    assert_eq!(doc.entries.len(), 2);
    assert_eq!(doc.entries[0].label, "Layer 0");
    assert_eq!(doc.entries[1].label, "Layer 1");
    assert_eq!(
        doc.entries[0].layer.get("layer_type"),
        Some(&JsonVal::Str(String::from("CEC")))
    );
    assert_eq!(
        doc.entries[1].layer.get("layer_type"),
        Some(&JsonVal::Str(String::from("LPAR")))
    );
    assert_eq!(
        doc.entries[1].layer.get("layer_name"),
        Some(&JsonVal::Str(String::from("LP01")))
    );
}

#[test]
fn ordinal_labels_render_in_decimal() {
    assert_eq!(qclib::make_layer_label(0), "Layer 0");
    assert_eq!(qclib::make_layer_label(7), "Layer 7");
    assert_eq!(qclib::make_layer_label(10), "Layer 10");
    assert_eq!(qclib::make_layer_label(305), "Layer 305");
    assert_eq!(qclib::usize_to_dec(0), "0");
    assert_eq!(qclib::usize_to_dec(90210), "90210");
}

use qclib::{
    derived_total, AttrEntry, AttrResponse, AttrValue, AttributeId, Error, ErrorKind, Layer,
    LayerCategory, LayerData, LayerDetails, LayerType, QueryCapacity,
};

fn present_int(id: AttributeId, v: i32) -> AttrEntry {
    AttrEntry {
        code: id.as_raw(),
        response: AttrResponse::Present(AttrValue::Int(v)),
    }
}

fn present_str(id: AttributeId, s: &str) -> AttrEntry {
    AttrEntry {
        code: id.as_raw(),
        response: AttrResponse::Present(AttrValue::Str(String::from(s))),
    }
}

fn common(kind: LayerType, category: LayerCategory, name: &str) -> Vec<AttrEntry> {
    vec![
        present_int(AttributeId::LayerTypeNum, kind.as_raw() as i32),
        present_int(AttributeId::LayerCategoryNum, category.as_raw() as i32),
        present_str(AttributeId::LayerName, name),
    ]
}

/// The scenario stack: a physical machine hosting a z/VM hypervisor that
/// runs one Linux guest.
fn scenario() -> QueryCapacity {
    let mut cec = common(LayerType::CEC, LayerCategory::Host, "M1");
    cec.push(present_int(AttributeId::NumCoreDedicated, 2));
    cec.push(present_int(AttributeId::NumCoreShared, 3));
    let zvm = common(LayerType::ZvmHypervisor, LayerCategory::Host, "VMSYS");
    let guest = common(LayerType::ZvmGuest, LayerCategory::Guest, "LNX1");
    QueryCapacity::from_layers(vec![
        LayerData { entries: cec },
        LayerData { entries: zvm },
        LayerData { entries: guest },
    ])
}

#[test]
fn forward_iteration_yields_the_stack_bottom_up() {
    let qc = scenario();
    let mut it = qc.layers();
    let mut kinds = Vec::new();
    let mut names = Vec::new();
    while let Some(layer) = it.next() {
        kinds.push(layer.layer_type().unwrap());
        names.push(layer.layer_name().unwrap().unwrap());
    }
    assert_eq!(
        kinds,
        vec![
            LayerType::CEC,
            LayerType::ZvmHypervisor,
            LayerType::ZvmGuest
        ]
    );
    assert_eq!(names, vec!["M1", "VMSYS", "LNX1"]);
}

#[test]
fn backward_iteration_mirrors_the_forward_order() {
    let qc = scenario();

    let mut it = qc.layers();
    let mut forward = Vec::new();
    while let Some(layer) = it.next() {
        forward.push(layer.layer);
    }

    let mut it = qc.layers();
    let mut backward = Vec::new();
    while let Some(layer) = it.next_back() {
        backward.push(layer.layer);
    }

    assert_eq!(forward, vec![0, 1, 2]);
    assert_eq!(backward, vec![2, 1, 0]);
    let n = forward.len();
    for i in 0..n {
        assert_eq!(forward[i], backward[n - 1 - i]);
    }
}

#[test]
fn both_directions_share_one_budget() {
    let qc = scenario();
    let mut it = qc.layers();
    assert_eq!(it.next().map(|l| l.layer), Some(0));
    assert_eq!(it.next_back().map(|l| l.layer), Some(1));
    assert_eq!(it.next().map(|l| l.layer), Some(2));
    assert!(it.next().is_none());
    assert!(it.next_back().is_none());
}

#[test]
fn scenario_counts_and_nesting_levels() {
    let qc = scenario();
    assert_eq!(qc.layer_count(), 3);
    assert_eq!(qc.host_layer_count(), Ok(2));
    assert_eq!(qc.nesting_levels(), Ok(vec![0, 1, 1]));
    assert_eq!(
        qc.categories(),
        Ok(vec![
            LayerCategory::Host,
            LayerCategory::Host,
            LayerCategory::Guest
        ])
    );
}

#[test]
fn scenario_details_dispatch_by_kind() {
    let qc = scenario();
    let bottom = Layer { qc: &qc, layer: 0 };
    match bottom.details().unwrap() {
        LayerDetails::CEC(cec) => {
            assert_eq!(cec.num_core_dedicated(), Ok(Some(2)));
            assert_eq!(cec.num_core_shared(), Ok(Some(3)));
            assert_eq!(cec.manufacturer(), Ok(None));
        }
        _ => panic!("the bottom layer must dispatch to the CEC accessors"),
    }
    let top = Layer { qc: &qc, layer: 2 };
    match top.details().unwrap() {
        LayerDetails::ZvmGuest(guest) => {
            assert_eq!(guest.num_cpu_total(), Ok(None));
            assert_eq!(guest.capping(), Ok(None));
        }
        _ => panic!("the top layer must dispatch to the z/VM guest accessors"),
    }
}

#[test]
fn cec_total_capacity_derivation() {
    let qc = scenario();
    let bottom = Layer { qc: &qc, layer: 0 };
    match bottom.details().unwrap() {
        LayerDetails::CEC(cec) => {
            let total = derived_total(
                cec.num_core_dedicated().unwrap(),
                cec.num_core_shared().unwrap(),
            );
            assert_eq!(total, Some(5));
            // With the shared component missing the total is unknown.
            let total = derived_total(cec.num_core_dedicated().unwrap(), cec.num_cp_shared().unwrap());
            assert_eq!(total, None);
        }
        _ => panic!("the bottom layer must dispatch to the CEC accessors"),
    }
}

#[test]
fn category_decoding_failure_stops_the_sweep() {
    let bad = LayerData {
        entries: vec![
            present_int(AttributeId::LayerTypeNum, 2),
            present_int(AttributeId::LayerCategoryNum, 9),
        ],
    };
    let qc = QueryCapacity::from_layers(vec![bad]);
    assert_eq!(qc.categories(), Err(Error { kind: ErrorKind::CatalogViolation { raw: 9 } }));
    assert_eq!(
        qc.host_layer_count(),
        Err(Error { kind: ErrorKind::CatalogViolation { raw: 9 } })
    );
    assert_eq!(
        qc.nesting_levels(),
        Err(Error { kind: ErrorKind::CatalogViolation { raw: 9 } })
    );
}

#[test]
fn missing_category_is_a_catalog_violation() {
    let bad = LayerData {
        entries: vec![present_int(AttributeId::LayerTypeNum, 2)],
    };
    let qc = QueryCapacity::from_layers(vec![bad]);
    let layer = Layer { qc: &qc, layer: 0 };
    assert_eq!(
        layer.layer_category(),
        Err(Error { kind: ErrorKind::CatalogViolation {
            raw: AttributeId::LayerCategoryNum.as_raw() as i64
        } })
    );
}

#[test]
fn negative_kind_code_is_a_catalog_violation() {
    let bad = LayerData {
        entries: vec![present_int(AttributeId::LayerTypeNum, -2)],
    };
    let qc = QueryCapacity::from_layers(vec![bad]);
    let layer = Layer { qc: &qc, layer: 0 };
    assert_eq!(
        layer.layer_type(),
        Err(Error { kind: ErrorKind::CatalogViolation { raw: -2 } })
    );
}

#[test]
fn failed_kind_query_surfaces_the_provider_error() {
    let bad = LayerData {
        entries: vec![AttrEntry {
            code: AttributeId::LayerTypeNum.as_raw(),
            response: AttrResponse::Fail(-11),
        }],
    };
    let qc = QueryCapacity::from_layers(vec![bad]);
    let layer = Layer { qc: &qc, layer: 0 };
    assert_eq!(layer.layer_type(), Err(Error { kind: ErrorKind::Query { code: -11 } }));
    assert!(matches!(layer.details(), Err(Error { kind: ErrorKind::Query { code: -11 } })));
}

#[test]
fn empty_stack_iterates_nothing() {
    let qc = QueryCapacity::from_layers(vec![]);
    assert_eq!(qc.layer_count(), 0);
    let mut it = qc.layers();
    assert!(it.next().is_none());
    assert!(it.next_back().is_none());
    assert_eq!(qc.host_layer_count(), Ok(0));
    assert_eq!(qc.nesting_levels(), Ok(vec![]));
    let doc = qc.to_json().unwrap();
    assert!(doc.entries.is_empty());
}

#[test]
fn pool_layers_keep_their_enclosing_level() {
    let qc = QueryCapacity::from_layers(vec![
        LayerData {
            entries: common(LayerType::CEC, LayerCategory::Host, "M2"),
        },
        LayerData {
            entries: common(LayerType::ZvmHypervisor, LayerCategory::Host, "VMSYS"),
        },
        LayerData {
            entries: common(LayerType::ZvmResourcePool, LayerCategory::Pool, "POOL1"),
        },
        LayerData {
            entries: common(LayerType::ZvmGuest, LayerCategory::Guest, "LNX2"),
        },
    ]);
    assert_eq!(qc.nesting_levels(), Ok(vec![0, 1, 1, 1]));
    assert_eq!(qc.host_layer_count(), Ok(2));
}

#[test]
fn capacity_summaries_per_kind() {
    let qc = scenario();
    let bottom = Layer { qc: &qc, layer: 0 };
    let summary = bottom.details().unwrap().capacity_summary().unwrap();
    assert_eq!(summary.ifl, None);
    assert_eq!(summary.cp, None);
    // The physical machine derives its total from dedicated plus shared.
    assert_eq!(summary.total, Some(5));
    let middle = Layer { qc: &qc, layer: 1 };
    let summary = middle.details().unwrap().capacity_summary().unwrap();
    // The hypervisor reports a direct total; none is recorded here.
    assert_eq!(summary.total, None);
}

#[test]
fn kvm_guest_summary_counts_accelerator_units_only() {
    let mut entries = common(LayerType::KvmGuest, LayerCategory::Guest, "KG1");
    entries.push(present_int(AttributeId::NumIflTotal, 6));
    let qc = QueryCapacity::from_layers(vec![LayerData { entries }]);
    let layer = Layer { qc: &qc, layer: 0 };
    let summary = layer.details().unwrap().capacity_summary().unwrap();
    assert_eq!(summary.ifl, Some(6));
    assert_eq!(summary.cp, Some(0));
    assert_eq!(summary.total, Some(6));
}

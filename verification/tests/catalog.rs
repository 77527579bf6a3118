use qclib::{AttributeId, Error, ErrorKind, LayerCategory, LayerType, ValueKind};

const ALL_LAYER_TYPES: [LayerType; 12] = [
    LayerType::CEC,
    LayerType::LparGroup,
    LayerType::Lpar,
    LayerType::ZvmHypervisor,
    LayerType::ZvmCpuPool,
    LayerType::ZvmResourcePool,
    LayerType::ZvmGuest,
    LayerType::KvmHypervisor,
    LayerType::KvmGuest,
    LayerType::ZosHypervisor,
    LayerType::ZosTenantResourceGroup,
    LayerType::ZosZcxServer,
];

#[test]
fn layer_type_round_trips_over_the_closed_set() {
    for t in ALL_LAYER_TYPES {
        let decoded = LayerType::from_raw(t.as_raw()).unwrap();
        if t == LayerType::ZvmResourcePool {
            // The deprecated alias pair shares one code; decoding prefers the
            // first catalog entry.
            assert_eq!(decoded, LayerType::ZvmCpuPool);
        } else {
            assert_eq!(decoded, t);
        }
    }
}

#[test]
fn layer_type_alias_pair_shares_its_code() {
    assert_eq!(
        LayerType::ZvmCpuPool.as_raw(),
        LayerType::ZvmResourcePool.as_raw()
    );
}

#[test]
fn layer_type_codes_match_the_provider_encoding() {
    assert_eq!(LayerType::CEC.as_raw(), 1);
    assert_eq!(LayerType::Lpar.as_raw(), 2);
    assert_eq!(LayerType::ZvmHypervisor.as_raw(), 3);
    assert_eq!(LayerType::ZvmCpuPool.as_raw(), 4);
    assert_eq!(LayerType::ZvmGuest.as_raw(), 5);
    assert_eq!(LayerType::KvmHypervisor.as_raw(), 6);
    assert_eq!(LayerType::KvmGuest.as_raw(), 7);
    assert_eq!(LayerType::LparGroup.as_raw(), 8);
    assert_eq!(LayerType::ZosHypervisor.as_raw(), 9);
    assert_eq!(LayerType::ZosTenantResourceGroup.as_raw(), 10);
    assert_eq!(LayerType::ZosZcxServer.as_raw(), 11);
}

#[test]
fn layer_type_rejects_codes_outside_the_closed_set() {
    assert_eq!(
        LayerType::from_raw(0),
        Err(Error { kind: ErrorKind::CatalogViolation { raw: 0 } })
    );
    assert_eq!(
        LayerType::from_raw(12),
        Err(Error { kind: ErrorKind::CatalogViolation { raw: 12 } })
    );
    assert_eq!(
        LayerType::from_raw(4096),
        Err(Error { kind: ErrorKind::CatalogViolation { raw: 4096 } })
    );
}

#[test]
fn layer_category_round_trips_over_the_whole_closed_set() {
    for c in [
        LayerCategory::Guest,
        LayerCategory::Host,
        LayerCategory::Pool,
    ] {
        assert_eq!(LayerCategory::from_raw(c.as_raw()), Ok(c));
    }
}

#[test]
fn layer_category_rejects_codes_outside_the_closed_set() {
    assert_eq!(
        LayerCategory::from_raw(0),
        Err(Error { kind: ErrorKind::CatalogViolation { raw: 0 } })
    );
    assert_eq!(
        LayerCategory::from_raw(4),
        Err(Error { kind: ErrorKind::CatalogViolation { raw: 4 } })
    );
}

#[test]
fn layer_type_display_names() {
    assert_eq!(LayerType::CEC.display_name(), "CEC");
    assert_eq!(LayerType::LparGroup.display_name(), "LPAR-GROUP");
    assert_eq!(LayerType::Lpar.display_name(), "LPAR");
    assert_eq!(LayerType::ZvmHypervisor.display_name(), "z/VM-hypervisor");
    assert_eq!(LayerType::ZvmCpuPool.display_name(), "z/VM-CPU-pool");
    assert_eq!(
        LayerType::ZvmResourcePool.display_name(),
        "z/VM-resource-pool"
    );
    assert_eq!(LayerType::ZvmGuest.display_name(), "z/VM-guest");
    assert_eq!(LayerType::KvmHypervisor.display_name(), "KVM-hypervisor");
    assert_eq!(LayerType::KvmGuest.display_name(), "KVM-guest");
    assert_eq!(LayerType::ZosHypervisor.display_name(), "z/OS-hypervisor");
    assert_eq!(
        LayerType::ZosTenantResourceGroup.display_name(),
        "z/OS-tenant-resource-group"
    );
    assert_eq!(LayerType::ZosZcxServer.display_name(), "z/OS-zCX-Server");
}

#[test]
fn layer_category_display_names() {
    assert_eq!(LayerCategory::Guest.display_name(), "GUEST");
    assert_eq!(LayerCategory::Host.display_name(), "HOST");
    assert_eq!(LayerCategory::Pool.display_name(), "POOL");
}

#[test]
fn deprecated_attribute_aliases_share_their_identifier() {
    assert_eq!(
        AttributeId::HardlimitConsumption.as_raw(),
        AttributeId::LimithardConsumption.as_raw()
    );
    assert_eq!(
        AttributeId::MobilityEligible.as_raw(),
        AttributeId::MobilityEnabled.as_raw()
    );
}

#[test]
fn attribute_identifiers_are_distinct_outside_the_alias_pairs() {
    // Every collision of numeric identifiers must be one of the two
    // sanctioned alias pairs.
    let all: Vec<(AttributeId, u32)> = vec![
        (AttributeId::Adjustment, 0),
        (AttributeId::Capability, 1),
        (AttributeId::CappingNum, 5),
        (AttributeId::LimithardConsumption, 15),
        (AttributeId::HardlimitConsumption, 15),
        (AttributeId::MobilityEnabled, 32),
        (AttributeId::MobilityEligible, 32),
        (AttributeId::LayerName, 27),
        (AttributeId::LayerTypeNum, 29),
        (AttributeId::LayerCategoryNum, 25),
        (AttributeId::NumCoreDedicated, 61),
        (AttributeId::NumCoreShared, 62),
        (AttributeId::HasSecure, 77),
        (AttributeId::Secure, 78),
    ];
    for (id, code) in all {
        assert_eq!(id.as_raw(), code);
    }
}

#[test]
fn attribute_declared_kinds() {
    assert_eq!(AttributeId::Manufacturer.kind(), ValueKind::Str);
    assert_eq!(AttributeId::LayerName.kind(), ValueKind::Str);
    assert_eq!(AttributeId::Capping.kind(), ValueKind::Str);
    assert_eq!(AttributeId::LicIdentifier.kind(), ValueKind::Str);
    assert_eq!(AttributeId::LayerTypeNum.kind(), ValueKind::Int);
    assert_eq!(AttributeId::NumCoreTotal.kind(), ValueKind::Int);
    assert_eq!(AttributeId::Adjustment.kind(), ValueKind::Int);
    assert_eq!(AttributeId::Capability.kind(), ValueKind::Float);
    assert_eq!(AttributeId::SecondaryCapability.kind(), ValueKind::Float);
}

#[test]
fn attribute_display_names_are_canonical() {
    assert_eq!(AttributeId::LayerTypeNum.display_name(), "layer_type_num");
    assert_eq!(
        AttributeId::LayerCategoryNum.display_name(),
        "layer_category_num"
    );
    assert_eq!(AttributeId::LayerType.display_name(), "layer_type");
    assert_eq!(AttributeId::LayerCategory.display_name(), "layer_category");
    assert_eq!(AttributeId::LayerName.display_name(), "layer_name");
    assert_eq!(AttributeId::Manufacturer.display_name(), "manufacturer");
    assert_eq!(AttributeId::Type.display_name(), "type");
    assert_eq!(
        AttributeId::CpAbsoluteCapping.display_name(),
        "absolute_capping"
    );
    assert_eq!(
        AttributeId::HardlimitConsumption.display_name(),
        "hardlimit_consumption"
    );
}

#[test]
fn catalog_sweep_covers_every_entry_once() {
    let all = AttributeId::catalog();
    assert_eq!(all.len(), 81);
    // Outside the two alias pairs, no two entries share an identifier.
    for (i, a) in all.iter().enumerate() {
        for b in all.iter().skip(i + 1) {
            if a.as_raw() == b.as_raw() {
                let pair = (a.display_name(), b.display_name());
                assert!(
                    pair == ("limithard_consumption", "hardlimit_consumption")
                        || pair == ("mobility_enabled", "mobility_eligible"),
                    "unexpected identifier collision: {:?}",
                    pair
                );
            }
        }
    }
}

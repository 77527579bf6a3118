use vstd::prelude::*;

use crate::error::{Error, ErrorKind};

verus! {

/// The closed set of layer kinds the catalog knows.
///
/// `ZvmCpuPool` is a deprecated alias of `ZvmResourcePool`: both encode to the
/// same numeric code, and decoding that code yields `ZvmCpuPool` (the first
/// entry of the catalog with that code).
#[derive(Clone, Copy, Debug, PartialEq, Eq, Structural)]
pub enum LayerType {
    /// CEC: the physical machine, bottom of the stack.
    CEC,
    /// LPAR capping group.
    LparGroup,
    /// Logical partition.
    Lpar,
    /// z/VM hypervisor.
    ZvmHypervisor,
    /// z/VM CPU pool (deprecated, same code as `ZvmResourcePool`).
    ZvmCpuPool,
    /// z/VM resource pool.
    ZvmResourcePool,
    /// z/VM guest.
    ZvmGuest,
    /// KVM hypervisor.
    KvmHypervisor,
    /// KVM guest.
    KvmGuest,
    /// z/OS hypervisor.
    ZosHypervisor,
    /// z/OS tenant resource group.
    ZosTenantResourceGroup,
    /// z/OS zCX server.
    ZosZcxServer,
}

/// Numeric code of each layer kind, as the provider reports it.
pub open spec fn layer_type_code(t: LayerType) -> u32 {
    match t {
        LayerType::CEC => 1,
        LayerType::LparGroup => 8,
        LayerType::Lpar => 2,
        LayerType::ZvmHypervisor => 3,
        LayerType::ZvmCpuPool => 4,
        LayerType::ZvmResourcePool => 4,
        LayerType::ZvmGuest => 5,
        LayerType::KvmHypervisor => 6,
        LayerType::KvmGuest => 7,
        LayerType::ZosHypervisor => 9,
        LayerType::ZosTenantResourceGroup => 10,
        LayerType::ZosZcxServer => 11,
    }
}

/// Decoding of a raw layer-kind code: the first catalog entry carrying that
/// code, or nothing when the code lies outside the closed set.
pub open spec fn layer_type_of_code(raw: u32) -> Option<LayerType> {
    if raw == 1 {
        Some(LayerType::CEC)
    } else if raw == 8 {
        Some(LayerType::LparGroup)
    } else if raw == 2 {
        Some(LayerType::Lpar)
    } else if raw == 3 {
        Some(LayerType::ZvmHypervisor)
    } else if raw == 4 {
        Some(LayerType::ZvmCpuPool)
    } else if raw == 5 {
        Some(LayerType::ZvmGuest)
    } else if raw == 6 {
        Some(LayerType::KvmHypervisor)
    } else if raw == 7 {
        Some(LayerType::KvmGuest)
    } else if raw == 9 {
        Some(LayerType::ZosHypervisor)
    } else if raw == 10 {
        Some(LayerType::ZosTenantResourceGroup)
    } else if raw == 11 {
        Some(LayerType::ZosZcxServer)
    } else {
        None
    }
}

/// Display name of each layer kind.
pub open spec fn layer_type_display(t: LayerType) -> Seq<char> {
    match t {
        LayerType::CEC => "CEC"@,
        LayerType::LparGroup => "LPAR-GROUP"@,
        LayerType::Lpar => "LPAR"@,
        LayerType::ZvmHypervisor => "z/VM-hypervisor"@,
        LayerType::ZvmCpuPool => "z/VM-CPU-pool"@,
        LayerType::ZvmResourcePool => "z/VM-resource-pool"@,
        LayerType::ZvmGuest => "z/VM-guest"@,
        LayerType::KvmHypervisor => "KVM-hypervisor"@,
        LayerType::KvmGuest => "KVM-guest"@,
        LayerType::ZosHypervisor => "z/OS-hypervisor"@,
        LayerType::ZosTenantResourceGroup => "z/OS-tenant-resource-group"@,
        LayerType::ZosZcxServer => "z/OS-zCX-Server"@,
    }
}

impl LayerType {
    /// The numeric code this kind encodes to.
    pub fn as_raw(&self) -> (r: u32)
        ensures
            r == layer_type_code(*self),
    {
        match *self {
            LayerType::CEC => 1,
            LayerType::LparGroup => 8,
            LayerType::Lpar => 2,
            LayerType::ZvmHypervisor => 3,
            LayerType::ZvmCpuPool => 4,
            LayerType::ZvmResourcePool => 4,
            LayerType::ZvmGuest => 5,
            LayerType::KvmHypervisor => 6,
            LayerType::KvmGuest => 7,
            LayerType::ZosHypervisor => 9,
            LayerType::ZosTenantResourceGroup => 10,
            LayerType::ZosZcxServer => 11,
        }
    }

    /// Decodes a raw code; a code outside the closed set is a provider
    /// contract breach, reported as `CatalogViolation`.
    pub fn from_raw(raw: u32) -> (r: Result<LayerType, Error>)
        ensures
            r == match layer_type_of_code(raw) {
                Some(t) => Ok::<LayerType, Error>(t),
                None => Err::<LayerType, Error>(Error { kind: ErrorKind::CatalogViolation { raw: raw as i64 } }),
            },
    {
        if raw == 1 {
            Ok(LayerType::CEC)
        } else if raw == 8 {
            Ok(LayerType::LparGroup)
        } else if raw == 2 {
            Ok(LayerType::Lpar)
        } else if raw == 3 {
            Ok(LayerType::ZvmHypervisor)
        } else if raw == 4 {
            Ok(LayerType::ZvmCpuPool)
        } else if raw == 5 {
            Ok(LayerType::ZvmGuest)
        } else if raw == 6 {
            Ok(LayerType::KvmHypervisor)
        } else if raw == 7 {
            Ok(LayerType::KvmGuest)
        } else if raw == 9 {
            Ok(LayerType::ZosHypervisor)
        } else if raw == 10 {
            Ok(LayerType::ZosTenantResourceGroup)
        } else if raw == 11 {
            Ok(LayerType::ZosZcxServer)
        } else {
            Err(Error { kind: ErrorKind::CatalogViolation { raw: raw as i64 } })
        }
    }

    /// The display name used for serialization and human-readable output.
    pub fn display_name(&self) -> (r: &'static str)
        ensures
            r@ == layer_type_display(*self),
    {
        match *self {
            LayerType::CEC => "CEC",
            LayerType::LparGroup => "LPAR-GROUP",
            LayerType::Lpar => "LPAR",
            LayerType::ZvmHypervisor => "z/VM-hypervisor",
            LayerType::ZvmCpuPool => "z/VM-CPU-pool",
            LayerType::ZvmResourcePool => "z/VM-resource-pool",
            LayerType::ZvmGuest => "z/VM-guest",
            LayerType::KvmHypervisor => "KVM-hypervisor",
            LayerType::KvmGuest => "KVM-guest",
            LayerType::ZosHypervisor => "z/OS-hypervisor",
            LayerType::ZosTenantResourceGroup => "z/OS-tenant-resource-group",
            LayerType::ZosZcxServer => "z/OS-zCX-Server",
        }
    }
}

/// Decoding a kind's own code yields that kind back, for every kind except the
/// deprecated alias pair: `ZvmResourcePool` shares its code with `ZvmCpuPool`,
/// and decoding prefers the first catalog entry.
pub proof fn lemma_layer_type_round_trip(t: LayerType)
    requires
        t != LayerType::ZvmResourcePool,
    ensures
        layer_type_of_code(layer_type_code(t)) == Some(t),
{
}

/// The deprecated alias kind encodes to the identical code as its replacement,
/// and that shared code decodes to the alias entry.
pub proof fn lemma_layer_type_alias()
    ensures
        layer_type_code(LayerType::ZvmCpuPool) == layer_type_code(LayerType::ZvmResourcePool),
        layer_type_of_code(layer_type_code(LayerType::ZvmResourcePool)) == Some(
            LayerType::ZvmCpuPool,
        ),
{
}

/// The closed set of layer categories, with an encoding independent from the
/// layer-kind encoding.
#[derive(Clone, Copy, Debug, PartialEq, Eq, Structural)]
pub enum LayerCategory {
    /// Runs inside a host: LPARs, z/VM and KVM guests.
    Guest,
    /// Virtualizes others: CEC, z/VM and KVM hosts.
    Host,
    /// Aggregates a shared resource allocation.
    Pool,
}

/// Numeric code of each layer category.
pub open spec fn layer_category_code(c: LayerCategory) -> u32 {
    match c {
        LayerCategory::Guest => 1,
        LayerCategory::Host => 2,
        LayerCategory::Pool => 3,
    }
}

/// Decoding of a raw category code.
pub open spec fn layer_category_of_code(raw: u32) -> Option<LayerCategory> {
    if raw == 1 {
        Some(LayerCategory::Guest)
    } else if raw == 2 {
        Some(LayerCategory::Host)
    } else if raw == 3 {
        Some(LayerCategory::Pool)
    } else {
        None
    }
}

/// Display name of each layer category.
pub open spec fn layer_category_display(c: LayerCategory) -> Seq<char> {
    match c {
        LayerCategory::Guest => "GUEST"@,
        LayerCategory::Host => "HOST"@,
        LayerCategory::Pool => "POOL"@,
    }
}

impl LayerCategory {
    /// The numeric code this category encodes to.
    pub fn as_raw(&self) -> (r: u32)
        ensures
            r == layer_category_code(*self),
    {
        match *self {
            LayerCategory::Guest => 1,
            LayerCategory::Host => 2,
            LayerCategory::Pool => 3,
        }
    }

    /// Decodes a raw category code; a code outside the closed set is a
    /// provider contract breach.
    pub fn from_raw(raw: u32) -> (r: Result<LayerCategory, Error>)
        ensures
            r == match layer_category_of_code(raw) {
                Some(c) => Ok::<LayerCategory, Error>(c),
                None => Err::<LayerCategory, Error>(Error { kind: ErrorKind::CatalogViolation { raw: raw as i64 } }),
            },
    {
        if raw == 1 {
            Ok(LayerCategory::Guest)
        } else if raw == 2 {
            Ok(LayerCategory::Host)
        } else if raw == 3 {
            Ok(LayerCategory::Pool)
        } else {
            Err(Error { kind: ErrorKind::CatalogViolation { raw: raw as i64 } })
        }
    }

    /// The display name used for serialization and human-readable output.
    pub fn display_name(&self) -> (r: &'static str)
        ensures
            r@ == layer_category_display(*self),
    {
        match *self {
            LayerCategory::Guest => "GUEST",
            LayerCategory::Host => "HOST",
            LayerCategory::Pool => "POOL",
        }
    }
}

/// Decoding a category's code always yields that category back: the category
/// encoding is bijective over the whole closed set.
pub proof fn lemma_layer_category_round_trip(c: LayerCategory)
    ensures
        layer_category_of_code(layer_category_code(c)) == Some(c),
{
}

/// The value kind an attribute declares: every query for the attribute either
/// yields a value of this kind, yields nothing, or fails.
#[derive(Clone, Copy, Debug, PartialEq, Eq, Structural)]
pub enum ValueKind {
    /// A textual value.
    Str,
    /// A 32-bit signed integer value.
    Int,
    /// A 32-bit floating-point value, carried as its raw bit pattern.
    Float,
}


/// The attribute catalog: every semantic attribute name the provider knows,
/// with its stable numeric identifier, declared value kind, and canonical
/// display name.
///
/// `HardlimitConsumption` and `MobilityEligible` are deprecated aliases of
/// `LimithardConsumption` and `MobilityEnabled`: each alias carries the
/// identical numeric identifier as its replacement, and these pairs are the
/// only sanctioned identifier collisions in the catalog.
#[derive(Clone, Copy, Debug, PartialEq, Eq, Structural)]
pub enum AttributeId {
    /// Attribute `adjustment`.
    Adjustment,
    /// Attribute `capability`.
    Capability,
    /// Attribute `capacity_adjustment_indication`.
    CapacityAdjustmentIndication,
    /// Attribute `capacity_change_reason`.
    CapacityChangeReason,
    /// Attribute `capping`.
    Capping,
    /// Attribute `capping_num`.
    CappingNum,
    /// Attribute `cluster_name`.
    ClusterName,
    /// Attribute `control_program_id`.
    ControlProgramId,
    /// Attribute `absolute_capping`.
    CpAbsoluteCapping,
    /// Attribute `cp_capacity_cap`.
    CpCapacityCap,
    /// Attribute `cp_capped_capacity`.
    CpCappedCapacity,
    /// Attribute `cp_dispatch_limithard`.
    CpDispatchLimithard,
    /// Attribute `cp_dispatch_type`.
    CpDispatchType,
    /// Attribute `cp_limithard_cap`.
    CpLimithardCap,
    /// Attribute `cp_weight_capping`.
    CpWeightCapping,
    /// Attribute `limithard_consumption`.
    LimithardConsumption,
    /// Attribute `hardlimit_consumption`.
    HardlimitConsumption,
    /// Attribute `has_multiple_cpu_types`.
    HasMultipleCpuTypes,
    /// Attribute `ifl_absolute_capping`.
    IflAbsoluteCapping,
    /// Attribute `ifl_capacity_cap`.
    IflCapacityCap,
    /// Attribute `ifl_capped_capacity`.
    IflCappedCapacity,
    /// Attribute `ifl_dispatch_limithard`.
    IflDispatchLimithard,
    /// Attribute `ifl_dispatch_type`.
    IflDispatchType,
    /// Attribute `ifl_limithard_cap`.
    IflLimithardCap,
    /// Attribute `ifl_weight_capping`.
    IflWeightCapping,
    /// Attribute `ziip_absolute_capping`.
    ZiipAbsoluteCapping,
    /// Attribute `ziip_capacity_cap`.
    ZiipCapacityCap,
    /// Attribute `ziip_capped_capacity`.
    ZiipCappedCapacity,
    /// Attribute `ziip_dispatch_limithard`.
    ZiipDispatchLimithard,
    /// Attribute `ziip_dispatch_type`.
    ZiipDispatchType,
    /// Attribute `ziip_limithard_cap`.
    ZiipLimithardCap,
    /// Attribute `ziip_weight_capping`.
    ZiipWeightCapping,
    /// Attribute `layer_category`.
    LayerCategory,
    /// Attribute `layer_category_num`.
    LayerCategoryNum,
    /// Attribute `layer_extended_name`.
    LayerExtendedName,
    /// Attribute `layer_name`.
    LayerName,
    /// Attribute `layer_type`.
    LayerType,
    /// Attribute `layer_type_num`.
    LayerTypeNum,
    /// Attribute `layer_uuid`.
    LayerUuid,
    /// Attribute `manufacturer`.
    Manufacturer,
    /// Attribute `mobility_enabled`.
    MobilityEnabled,
    /// Attribute `mobility_eligible`.
    MobilityEligible,
    /// Attribute `has_secure`.
    HasSecure,
    /// Attribute `secure`.
    Secure,
    /// Attribute `model`.
    Model,
    /// Attribute `model_capacity`.
    ModelCapacity,
    /// Attribute `type_family`.
    TypeFamily,
    /// Attribute `num_cp_dedicated`.
    NumCpDedicated,
    /// Attribute `num_cp_shared`.
    NumCpShared,
    /// Attribute `num_cp_total`.
    NumCpTotal,
    /// Attribute `num_cpu_configured`.
    NumCpuConfigured,
    /// Attribute `num_cpu_dedicated`.
    NumCpuDedicated,
    /// Attribute `num_cpu_reserved`.
    NumCpuReserved,
    /// Attribute `num_cpu_shared`.
    NumCpuShared,
    /// Attribute `num_cpu_standby`.
    NumCpuStandby,
    /// Attribute `num_cpu_total`.
    NumCpuTotal,
    /// Attribute `num_ifl_dedicated`.
    NumIflDedicated,
    /// Attribute `num_ifl_shared`.
    NumIflShared,
    /// Attribute `num_ifl_total`.
    NumIflTotal,
    /// Attribute `num_ziip_dedicated`.
    NumZiipDedicated,
    /// Attribute `num_ziip_shared`.
    NumZiipShared,
    /// Attribute `num_ziip_total`.
    NumZiipTotal,
    /// Attribute `partition_char`.
    PartitionChar,
    /// Attribute `partition_char_num`.
    PartitionCharNum,
    /// Attribute `partition_number`.
    PartitionNumber,
    /// Attribute `plant`.
    Plant,
    /// Attribute `secondary_capability`.
    SecondaryCapability,
    /// Attribute `sequence_code`.
    SequenceCode,
    /// Attribute `type`.
    Type,
    /// Attribute `prorated_core_time`.
    ProratedCoreTime,
    /// Attribute `num_cp_threads`.
    NumCpThreads,
    /// Attribute `num_ifl_threads`.
    NumIflThreads,
    /// Attribute `num_ziip_threads`.
    NumZiipThreads,
    /// Attribute `num_core_total`.
    NumCoreTotal,
    /// Attribute `num_core_configured`.
    NumCoreConfigured,
    /// Attribute `num_core_standby`.
    NumCoreStandby,
    /// Attribute `num_core_reserved`.
    NumCoreReserved,
    /// Attribute `num_core_dedicated`.
    NumCoreDedicated,
    /// Attribute `num_core_shared`.
    NumCoreShared,
    /// Attribute `type_name`.
    TypeName,
    /// Attribute `lic_identifier`.
    LicIdentifier,
}

/// Stable numeric identifier of each catalog entry.
pub open spec fn attr_code(a: AttributeId) -> u32 {
    match a {
        AttributeId::Adjustment => 0,
        AttributeId::Capability => 1,
        AttributeId::CapacityAdjustmentIndication => 2,
        AttributeId::CapacityChangeReason => 3,
        AttributeId::Capping => 4,
        AttributeId::CappingNum => 5,
        AttributeId::ClusterName => 6,
        AttributeId::ControlProgramId => 7,
        AttributeId::CpAbsoluteCapping => 8,
        AttributeId::CpCapacityCap => 9,
        AttributeId::CpCappedCapacity => 10,
        AttributeId::CpDispatchLimithard => 11,
        AttributeId::CpDispatchType => 12,
        AttributeId::CpLimithardCap => 13,
        AttributeId::CpWeightCapping => 14,
        AttributeId::LimithardConsumption => 15,
        AttributeId::HardlimitConsumption => 15,
        AttributeId::HasMultipleCpuTypes => 16,
        AttributeId::IflAbsoluteCapping => 17,
        AttributeId::IflCapacityCap => 18,
        AttributeId::IflCappedCapacity => 19,
        AttributeId::IflDispatchLimithard => 20,
        AttributeId::IflDispatchType => 21,
        AttributeId::IflLimithardCap => 22,
        AttributeId::IflWeightCapping => 23,
        AttributeId::ZiipAbsoluteCapping => 66,
        AttributeId::ZiipCapacityCap => 67,
        AttributeId::ZiipCappedCapacity => 68,
        AttributeId::ZiipDispatchLimithard => 69,
        AttributeId::ZiipDispatchType => 70,
        AttributeId::ZiipLimithardCap => 71,
        AttributeId::ZiipWeightCapping => 72,
        AttributeId::LayerCategory => 24,
        AttributeId::LayerCategoryNum => 25,
        AttributeId::LayerExtendedName => 26,
        AttributeId::LayerName => 27,
        AttributeId::LayerType => 28,
        AttributeId::LayerTypeNum => 29,
        AttributeId::LayerUuid => 30,
        AttributeId::Manufacturer => 31,
        AttributeId::MobilityEnabled => 32,
        AttributeId::MobilityEligible => 32,
        AttributeId::HasSecure => 77,
        AttributeId::Secure => 78,
        AttributeId::Model => 33,
        AttributeId::ModelCapacity => 34,
        AttributeId::TypeFamily => 65,
        AttributeId::NumCpDedicated => 35,
        AttributeId::NumCpShared => 36,
        AttributeId::NumCpTotal => 37,
        AttributeId::NumCpuConfigured => 38,
        AttributeId::NumCpuDedicated => 39,
        AttributeId::NumCpuReserved => 40,
        AttributeId::NumCpuShared => 41,
        AttributeId::NumCpuStandby => 42,
        AttributeId::NumCpuTotal => 43,
        AttributeId::NumIflDedicated => 44,
        AttributeId::NumIflShared => 45,
        AttributeId::NumIflTotal => 46,
        AttributeId::NumZiipDedicated => 73,
        AttributeId::NumZiipShared => 74,
        AttributeId::NumZiipTotal => 75,
        AttributeId::PartitionChar => 47,
        AttributeId::PartitionCharNum => 48,
        AttributeId::PartitionNumber => 49,
        AttributeId::Plant => 50,
        AttributeId::SecondaryCapability => 51,
        AttributeId::SequenceCode => 52,
        AttributeId::Type => 53,
        AttributeId::ProratedCoreTime => 54,
        AttributeId::NumCpThreads => 55,
        AttributeId::NumIflThreads => 56,
        AttributeId::NumZiipThreads => 76,
        AttributeId::NumCoreTotal => 57,
        AttributeId::NumCoreConfigured => 58,
        AttributeId::NumCoreStandby => 59,
        AttributeId::NumCoreReserved => 60,
        AttributeId::NumCoreDedicated => 61,
        AttributeId::NumCoreShared => 62,
        AttributeId::TypeName => 63,
        AttributeId::LicIdentifier => 64,
    }
}

/// Declared value kind of each catalog entry.
pub open spec fn attr_kind(a: AttributeId) -> ValueKind {
    match a {
        AttributeId::Adjustment => ValueKind::Int,
        AttributeId::Capability => ValueKind::Float,
        AttributeId::CapacityAdjustmentIndication => ValueKind::Int,
        AttributeId::CapacityChangeReason => ValueKind::Int,
        AttributeId::Capping => ValueKind::Str,
        AttributeId::CappingNum => ValueKind::Int,
        AttributeId::ClusterName => ValueKind::Str,
        AttributeId::ControlProgramId => ValueKind::Str,
        AttributeId::CpAbsoluteCapping => ValueKind::Int,
        AttributeId::CpCapacityCap => ValueKind::Int,
        AttributeId::CpCappedCapacity => ValueKind::Int,
        AttributeId::CpDispatchLimithard => ValueKind::Int,
        AttributeId::CpDispatchType => ValueKind::Int,
        AttributeId::CpLimithardCap => ValueKind::Int,
        AttributeId::CpWeightCapping => ValueKind::Int,
        AttributeId::LimithardConsumption => ValueKind::Int,
        AttributeId::HardlimitConsumption => ValueKind::Int,
        AttributeId::HasMultipleCpuTypes => ValueKind::Int,
        AttributeId::IflAbsoluteCapping => ValueKind::Int,
        AttributeId::IflCapacityCap => ValueKind::Int,
        AttributeId::IflCappedCapacity => ValueKind::Int,
        AttributeId::IflDispatchLimithard => ValueKind::Int,
        AttributeId::IflDispatchType => ValueKind::Int,
        AttributeId::IflLimithardCap => ValueKind::Int,
        AttributeId::IflWeightCapping => ValueKind::Int,
        AttributeId::ZiipAbsoluteCapping => ValueKind::Int,
        AttributeId::ZiipCapacityCap => ValueKind::Int,
        AttributeId::ZiipCappedCapacity => ValueKind::Int,
        AttributeId::ZiipDispatchLimithard => ValueKind::Int,
        AttributeId::ZiipDispatchType => ValueKind::Int,
        AttributeId::ZiipLimithardCap => ValueKind::Int,
        AttributeId::ZiipWeightCapping => ValueKind::Int,
        AttributeId::LayerCategory => ValueKind::Str,
        AttributeId::LayerCategoryNum => ValueKind::Int,
        AttributeId::LayerExtendedName => ValueKind::Str,
        AttributeId::LayerName => ValueKind::Str,
        AttributeId::LayerType => ValueKind::Str,
        AttributeId::LayerTypeNum => ValueKind::Int,
        AttributeId::LayerUuid => ValueKind::Str,
        AttributeId::Manufacturer => ValueKind::Str,
        AttributeId::MobilityEnabled => ValueKind::Int,
        AttributeId::MobilityEligible => ValueKind::Int,
        AttributeId::HasSecure => ValueKind::Int,
        AttributeId::Secure => ValueKind::Int,
        AttributeId::Model => ValueKind::Str,
        AttributeId::ModelCapacity => ValueKind::Str,
        AttributeId::TypeFamily => ValueKind::Int,
        AttributeId::NumCpDedicated => ValueKind::Int,
        AttributeId::NumCpShared => ValueKind::Int,
        AttributeId::NumCpTotal => ValueKind::Int,
        AttributeId::NumCpuConfigured => ValueKind::Int,
        AttributeId::NumCpuDedicated => ValueKind::Int,
        AttributeId::NumCpuReserved => ValueKind::Int,
        AttributeId::NumCpuShared => ValueKind::Int,
        AttributeId::NumCpuStandby => ValueKind::Int,
        AttributeId::NumCpuTotal => ValueKind::Int,
        AttributeId::NumIflDedicated => ValueKind::Int,
        AttributeId::NumIflShared => ValueKind::Int,
        AttributeId::NumIflTotal => ValueKind::Int,
        AttributeId::NumZiipDedicated => ValueKind::Int,
        AttributeId::NumZiipShared => ValueKind::Int,
        AttributeId::NumZiipTotal => ValueKind::Int,
        AttributeId::PartitionChar => ValueKind::Str,
        AttributeId::PartitionCharNum => ValueKind::Int,
        AttributeId::PartitionNumber => ValueKind::Int,
        AttributeId::Plant => ValueKind::Str,
        AttributeId::SecondaryCapability => ValueKind::Float,
        AttributeId::SequenceCode => ValueKind::Str,
        AttributeId::Type => ValueKind::Str,
        AttributeId::ProratedCoreTime => ValueKind::Int,
        AttributeId::NumCpThreads => ValueKind::Int,
        AttributeId::NumIflThreads => ValueKind::Int,
        AttributeId::NumZiipThreads => ValueKind::Int,
        AttributeId::NumCoreTotal => ValueKind::Int,
        AttributeId::NumCoreConfigured => ValueKind::Int,
        AttributeId::NumCoreStandby => ValueKind::Int,
        AttributeId::NumCoreReserved => ValueKind::Int,
        AttributeId::NumCoreDedicated => ValueKind::Int,
        AttributeId::NumCoreShared => ValueKind::Int,
        AttributeId::TypeName => ValueKind::Str,
        AttributeId::LicIdentifier => ValueKind::Str,
    }
}

/// Canonical display name of each catalog entry, used for serialization.
pub open spec fn attr_display(a: AttributeId) -> Seq<char> {
    match a {
        AttributeId::Adjustment => "adjustment"@,
        AttributeId::Capability => "capability"@,
        AttributeId::CapacityAdjustmentIndication => "capacity_adjustment_indication"@,
        AttributeId::CapacityChangeReason => "capacity_change_reason"@,
        AttributeId::Capping => "capping"@,
        AttributeId::CappingNum => "capping_num"@,
        AttributeId::ClusterName => "cluster_name"@,
        AttributeId::ControlProgramId => "control_program_id"@,
        AttributeId::CpAbsoluteCapping => "absolute_capping"@,
        AttributeId::CpCapacityCap => "cp_capacity_cap"@,
        AttributeId::CpCappedCapacity => "cp_capped_capacity"@,
        AttributeId::CpDispatchLimithard => "cp_dispatch_limithard"@,
        AttributeId::CpDispatchType => "cp_dispatch_type"@,
        AttributeId::CpLimithardCap => "cp_limithard_cap"@,
        AttributeId::CpWeightCapping => "cp_weight_capping"@,
        AttributeId::LimithardConsumption => "limithard_consumption"@,
        AttributeId::HardlimitConsumption => "hardlimit_consumption"@,
        AttributeId::HasMultipleCpuTypes => "has_multiple_cpu_types"@,
        AttributeId::IflAbsoluteCapping => "ifl_absolute_capping"@,
        AttributeId::IflCapacityCap => "ifl_capacity_cap"@,
        AttributeId::IflCappedCapacity => "ifl_capped_capacity"@,
        AttributeId::IflDispatchLimithard => "ifl_dispatch_limithard"@,
        AttributeId::IflDispatchType => "ifl_dispatch_type"@,
        AttributeId::IflLimithardCap => "ifl_limithard_cap"@,
        AttributeId::IflWeightCapping => "ifl_weight_capping"@,
        AttributeId::ZiipAbsoluteCapping => "ziip_absolute_capping"@,
        AttributeId::ZiipCapacityCap => "ziip_capacity_cap"@,
        AttributeId::ZiipCappedCapacity => "ziip_capped_capacity"@,
        AttributeId::ZiipDispatchLimithard => "ziip_dispatch_limithard"@,
        AttributeId::ZiipDispatchType => "ziip_dispatch_type"@,
        AttributeId::ZiipLimithardCap => "ziip_limithard_cap"@,
        AttributeId::ZiipWeightCapping => "ziip_weight_capping"@,
        AttributeId::LayerCategory => "layer_category"@,
        AttributeId::LayerCategoryNum => "layer_category_num"@,
        AttributeId::LayerExtendedName => "layer_extended_name"@,
        AttributeId::LayerName => "layer_name"@,
        AttributeId::LayerType => "layer_type"@,
        AttributeId::LayerTypeNum => "layer_type_num"@,
        AttributeId::LayerUuid => "layer_uuid"@,
        AttributeId::Manufacturer => "manufacturer"@,
        AttributeId::MobilityEnabled => "mobility_enabled"@,
        AttributeId::MobilityEligible => "mobility_eligible"@,
        AttributeId::HasSecure => "has_secure"@,
        AttributeId::Secure => "secure"@,
        AttributeId::Model => "model"@,
        AttributeId::ModelCapacity => "model_capacity"@,
        AttributeId::TypeFamily => "type_family"@,
        AttributeId::NumCpDedicated => "num_cp_dedicated"@,
        AttributeId::NumCpShared => "num_cp_shared"@,
        AttributeId::NumCpTotal => "num_cp_total"@,
        AttributeId::NumCpuConfigured => "num_cpu_configured"@,
        AttributeId::NumCpuDedicated => "num_cpu_dedicated"@,
        AttributeId::NumCpuReserved => "num_cpu_reserved"@,
        AttributeId::NumCpuShared => "num_cpu_shared"@,
        AttributeId::NumCpuStandby => "num_cpu_standby"@,
        AttributeId::NumCpuTotal => "num_cpu_total"@,
        AttributeId::NumIflDedicated => "num_ifl_dedicated"@,
        AttributeId::NumIflShared => "num_ifl_shared"@,
        AttributeId::NumIflTotal => "num_ifl_total"@,
        AttributeId::NumZiipDedicated => "num_ziip_dedicated"@,
        AttributeId::NumZiipShared => "num_ziip_shared"@,
        AttributeId::NumZiipTotal => "num_ziip_total"@,
        AttributeId::PartitionChar => "partition_char"@,
        AttributeId::PartitionCharNum => "partition_char_num"@,
        AttributeId::PartitionNumber => "partition_number"@,
        AttributeId::Plant => "plant"@,
        AttributeId::SecondaryCapability => "secondary_capability"@,
        AttributeId::SequenceCode => "sequence_code"@,
        AttributeId::Type => "type"@,
        AttributeId::ProratedCoreTime => "prorated_core_time"@,
        AttributeId::NumCpThreads => "num_cp_threads"@,
        AttributeId::NumIflThreads => "num_ifl_threads"@,
        AttributeId::NumZiipThreads => "num_ziip_threads"@,
        AttributeId::NumCoreTotal => "num_core_total"@,
        AttributeId::NumCoreConfigured => "num_core_configured"@,
        AttributeId::NumCoreStandby => "num_core_standby"@,
        AttributeId::NumCoreReserved => "num_core_reserved"@,
        AttributeId::NumCoreDedicated => "num_core_dedicated"@,
        AttributeId::NumCoreShared => "num_core_shared"@,
        AttributeId::TypeName => "type_name"@,
        AttributeId::LicIdentifier => "lic_identifier"@,
    }
}

/// Resolution of deprecated aliases: an alias maps to its replacement, every
/// other entry to itself.
pub open spec fn canonical_attr(a: AttributeId) -> AttributeId {
    match a {
        AttributeId::HardlimitConsumption => AttributeId::LimithardConsumption,
        AttributeId::MobilityEligible => AttributeId::MobilityEnabled,
        _ => a,
    }
}

impl AttributeId {
    /// The numeric identifier this attribute encodes to.
    pub fn as_raw(&self) -> (r: u32)
        ensures
            r == attr_code(*self),
    {
        match *self {
            AttributeId::Adjustment => 0,
            AttributeId::Capability => 1,
            AttributeId::CapacityAdjustmentIndication => 2,
            AttributeId::CapacityChangeReason => 3,
            AttributeId::Capping => 4,
            AttributeId::CappingNum => 5,
            AttributeId::ClusterName => 6,
            AttributeId::ControlProgramId => 7,
            AttributeId::CpAbsoluteCapping => 8,
            AttributeId::CpCapacityCap => 9,
            AttributeId::CpCappedCapacity => 10,
            AttributeId::CpDispatchLimithard => 11,
            AttributeId::CpDispatchType => 12,
            AttributeId::CpLimithardCap => 13,
            AttributeId::CpWeightCapping => 14,
            AttributeId::LimithardConsumption => 15,
            AttributeId::HardlimitConsumption => 15,
            AttributeId::HasMultipleCpuTypes => 16,
            AttributeId::IflAbsoluteCapping => 17,
            AttributeId::IflCapacityCap => 18,
            AttributeId::IflCappedCapacity => 19,
            AttributeId::IflDispatchLimithard => 20,
            AttributeId::IflDispatchType => 21,
            AttributeId::IflLimithardCap => 22,
            AttributeId::IflWeightCapping => 23,
            AttributeId::ZiipAbsoluteCapping => 66,
            AttributeId::ZiipCapacityCap => 67,
            AttributeId::ZiipCappedCapacity => 68,
            AttributeId::ZiipDispatchLimithard => 69,
            AttributeId::ZiipDispatchType => 70,
            AttributeId::ZiipLimithardCap => 71,
            AttributeId::ZiipWeightCapping => 72,
            AttributeId::LayerCategory => 24,
            AttributeId::LayerCategoryNum => 25,
            AttributeId::LayerExtendedName => 26,
            AttributeId::LayerName => 27,
            AttributeId::LayerType => 28,
            AttributeId::LayerTypeNum => 29,
            AttributeId::LayerUuid => 30,
            AttributeId::Manufacturer => 31,
            AttributeId::MobilityEnabled => 32,
            AttributeId::MobilityEligible => 32,
            AttributeId::HasSecure => 77,
            AttributeId::Secure => 78,
            AttributeId::Model => 33,
            AttributeId::ModelCapacity => 34,
            AttributeId::TypeFamily => 65,
            AttributeId::NumCpDedicated => 35,
            AttributeId::NumCpShared => 36,
            AttributeId::NumCpTotal => 37,
            AttributeId::NumCpuConfigured => 38,
            AttributeId::NumCpuDedicated => 39,
            AttributeId::NumCpuReserved => 40,
            AttributeId::NumCpuShared => 41,
            AttributeId::NumCpuStandby => 42,
            AttributeId::NumCpuTotal => 43,
            AttributeId::NumIflDedicated => 44,
            AttributeId::NumIflShared => 45,
            AttributeId::NumIflTotal => 46,
            AttributeId::NumZiipDedicated => 73,
            AttributeId::NumZiipShared => 74,
            AttributeId::NumZiipTotal => 75,
            AttributeId::PartitionChar => 47,
            AttributeId::PartitionCharNum => 48,
            AttributeId::PartitionNumber => 49,
            AttributeId::Plant => 50,
            AttributeId::SecondaryCapability => 51,
            AttributeId::SequenceCode => 52,
            AttributeId::Type => 53,
            AttributeId::ProratedCoreTime => 54,
            AttributeId::NumCpThreads => 55,
            AttributeId::NumIflThreads => 56,
            AttributeId::NumZiipThreads => 76,
            AttributeId::NumCoreTotal => 57,
            AttributeId::NumCoreConfigured => 58,
            AttributeId::NumCoreStandby => 59,
            AttributeId::NumCoreReserved => 60,
            AttributeId::NumCoreDedicated => 61,
            AttributeId::NumCoreShared => 62,
            AttributeId::TypeName => 63,
            AttributeId::LicIdentifier => 64,
        }
    }

    /// The declared value kind of this attribute.
    pub fn kind(&self) -> (r: ValueKind)
        ensures
            r == attr_kind(*self),
    {
        match *self {
            AttributeId::Adjustment => ValueKind::Int,
            AttributeId::Capability => ValueKind::Float,
            AttributeId::CapacityAdjustmentIndication => ValueKind::Int,
            AttributeId::CapacityChangeReason => ValueKind::Int,
            AttributeId::Capping => ValueKind::Str,
            AttributeId::CappingNum => ValueKind::Int,
            AttributeId::ClusterName => ValueKind::Str,
            AttributeId::ControlProgramId => ValueKind::Str,
            AttributeId::CpAbsoluteCapping => ValueKind::Int,
            AttributeId::CpCapacityCap => ValueKind::Int,
            AttributeId::CpCappedCapacity => ValueKind::Int,
            AttributeId::CpDispatchLimithard => ValueKind::Int,
            AttributeId::CpDispatchType => ValueKind::Int,
            AttributeId::CpLimithardCap => ValueKind::Int,
            AttributeId::CpWeightCapping => ValueKind::Int,
            AttributeId::LimithardConsumption => ValueKind::Int,
            AttributeId::HardlimitConsumption => ValueKind::Int,
            AttributeId::HasMultipleCpuTypes => ValueKind::Int,
            AttributeId::IflAbsoluteCapping => ValueKind::Int,
            AttributeId::IflCapacityCap => ValueKind::Int,
            AttributeId::IflCappedCapacity => ValueKind::Int,
            AttributeId::IflDispatchLimithard => ValueKind::Int,
            AttributeId::IflDispatchType => ValueKind::Int,
            AttributeId::IflLimithardCap => ValueKind::Int,
            AttributeId::IflWeightCapping => ValueKind::Int,
            AttributeId::ZiipAbsoluteCapping => ValueKind::Int,
            AttributeId::ZiipCapacityCap => ValueKind::Int,
            AttributeId::ZiipCappedCapacity => ValueKind::Int,
            AttributeId::ZiipDispatchLimithard => ValueKind::Int,
            AttributeId::ZiipDispatchType => ValueKind::Int,
            AttributeId::ZiipLimithardCap => ValueKind::Int,
            AttributeId::ZiipWeightCapping => ValueKind::Int,
            AttributeId::LayerCategory => ValueKind::Str,
            AttributeId::LayerCategoryNum => ValueKind::Int,
            AttributeId::LayerExtendedName => ValueKind::Str,
            AttributeId::LayerName => ValueKind::Str,
            AttributeId::LayerType => ValueKind::Str,
            AttributeId::LayerTypeNum => ValueKind::Int,
            AttributeId::LayerUuid => ValueKind::Str,
            AttributeId::Manufacturer => ValueKind::Str,
            AttributeId::MobilityEnabled => ValueKind::Int,
            AttributeId::MobilityEligible => ValueKind::Int,
            AttributeId::HasSecure => ValueKind::Int,
            AttributeId::Secure => ValueKind::Int,
            AttributeId::Model => ValueKind::Str,
            AttributeId::ModelCapacity => ValueKind::Str,
            AttributeId::TypeFamily => ValueKind::Int,
            AttributeId::NumCpDedicated => ValueKind::Int,
            AttributeId::NumCpShared => ValueKind::Int,
            AttributeId::NumCpTotal => ValueKind::Int,
            AttributeId::NumCpuConfigured => ValueKind::Int,
            AttributeId::NumCpuDedicated => ValueKind::Int,
            AttributeId::NumCpuReserved => ValueKind::Int,
            AttributeId::NumCpuShared => ValueKind::Int,
            AttributeId::NumCpuStandby => ValueKind::Int,
            AttributeId::NumCpuTotal => ValueKind::Int,
            AttributeId::NumIflDedicated => ValueKind::Int,
            AttributeId::NumIflShared => ValueKind::Int,
            AttributeId::NumIflTotal => ValueKind::Int,
            AttributeId::NumZiipDedicated => ValueKind::Int,
            AttributeId::NumZiipShared => ValueKind::Int,
            AttributeId::NumZiipTotal => ValueKind::Int,
            AttributeId::PartitionChar => ValueKind::Str,
            AttributeId::PartitionCharNum => ValueKind::Int,
            AttributeId::PartitionNumber => ValueKind::Int,
            AttributeId::Plant => ValueKind::Str,
            AttributeId::SecondaryCapability => ValueKind::Float,
            AttributeId::SequenceCode => ValueKind::Str,
            AttributeId::Type => ValueKind::Str,
            AttributeId::ProratedCoreTime => ValueKind::Int,
            AttributeId::NumCpThreads => ValueKind::Int,
            AttributeId::NumIflThreads => ValueKind::Int,
            AttributeId::NumZiipThreads => ValueKind::Int,
            AttributeId::NumCoreTotal => ValueKind::Int,
            AttributeId::NumCoreConfigured => ValueKind::Int,
            AttributeId::NumCoreStandby => ValueKind::Int,
            AttributeId::NumCoreReserved => ValueKind::Int,
            AttributeId::NumCoreDedicated => ValueKind::Int,
            AttributeId::NumCoreShared => ValueKind::Int,
            AttributeId::TypeName => ValueKind::Str,
            AttributeId::LicIdentifier => ValueKind::Str,
        }
    }

    /// The canonical display name used for serialization.
    pub fn display_name(&self) -> (r: &'static str)
        ensures
            r@ == attr_display(*self),
    {
        match *self {
            AttributeId::Adjustment => "adjustment",
            AttributeId::Capability => "capability",
            AttributeId::CapacityAdjustmentIndication => "capacity_adjustment_indication",
            AttributeId::CapacityChangeReason => "capacity_change_reason",
            AttributeId::Capping => "capping",
            AttributeId::CappingNum => "capping_num",
            AttributeId::ClusterName => "cluster_name",
            AttributeId::ControlProgramId => "control_program_id",
            AttributeId::CpAbsoluteCapping => "absolute_capping",
            AttributeId::CpCapacityCap => "cp_capacity_cap",
            AttributeId::CpCappedCapacity => "cp_capped_capacity",
            AttributeId::CpDispatchLimithard => "cp_dispatch_limithard",
            AttributeId::CpDispatchType => "cp_dispatch_type",
            AttributeId::CpLimithardCap => "cp_limithard_cap",
            AttributeId::CpWeightCapping => "cp_weight_capping",
            AttributeId::LimithardConsumption => "limithard_consumption",
            AttributeId::HardlimitConsumption => "hardlimit_consumption",
            AttributeId::HasMultipleCpuTypes => "has_multiple_cpu_types",
            AttributeId::IflAbsoluteCapping => "ifl_absolute_capping",
            AttributeId::IflCapacityCap => "ifl_capacity_cap",
            AttributeId::IflCappedCapacity => "ifl_capped_capacity",
            AttributeId::IflDispatchLimithard => "ifl_dispatch_limithard",
            AttributeId::IflDispatchType => "ifl_dispatch_type",
            AttributeId::IflLimithardCap => "ifl_limithard_cap",
            AttributeId::IflWeightCapping => "ifl_weight_capping",
            AttributeId::ZiipAbsoluteCapping => "ziip_absolute_capping",
            AttributeId::ZiipCapacityCap => "ziip_capacity_cap",
            AttributeId::ZiipCappedCapacity => "ziip_capped_capacity",
            AttributeId::ZiipDispatchLimithard => "ziip_dispatch_limithard",
            AttributeId::ZiipDispatchType => "ziip_dispatch_type",
            AttributeId::ZiipLimithardCap => "ziip_limithard_cap",
            AttributeId::ZiipWeightCapping => "ziip_weight_capping",
            AttributeId::LayerCategory => "layer_category",
            AttributeId::LayerCategoryNum => "layer_category_num",
            AttributeId::LayerExtendedName => "layer_extended_name",
            AttributeId::LayerName => "layer_name",
            AttributeId::LayerType => "layer_type",
            AttributeId::LayerTypeNum => "layer_type_num",
            AttributeId::LayerUuid => "layer_uuid",
            AttributeId::Manufacturer => "manufacturer",
            AttributeId::MobilityEnabled => "mobility_enabled",
            AttributeId::MobilityEligible => "mobility_eligible",
            AttributeId::HasSecure => "has_secure",
            AttributeId::Secure => "secure",
            AttributeId::Model => "model",
            AttributeId::ModelCapacity => "model_capacity",
            AttributeId::TypeFamily => "type_family",
            AttributeId::NumCpDedicated => "num_cp_dedicated",
            AttributeId::NumCpShared => "num_cp_shared",
            AttributeId::NumCpTotal => "num_cp_total",
            AttributeId::NumCpuConfigured => "num_cpu_configured",
            AttributeId::NumCpuDedicated => "num_cpu_dedicated",
            AttributeId::NumCpuReserved => "num_cpu_reserved",
            AttributeId::NumCpuShared => "num_cpu_shared",
            AttributeId::NumCpuStandby => "num_cpu_standby",
            AttributeId::NumCpuTotal => "num_cpu_total",
            AttributeId::NumIflDedicated => "num_ifl_dedicated",
            AttributeId::NumIflShared => "num_ifl_shared",
            AttributeId::NumIflTotal => "num_ifl_total",
            AttributeId::NumZiipDedicated => "num_ziip_dedicated",
            AttributeId::NumZiipShared => "num_ziip_shared",
            AttributeId::NumZiipTotal => "num_ziip_total",
            AttributeId::PartitionChar => "partition_char",
            AttributeId::PartitionCharNum => "partition_char_num",
            AttributeId::PartitionNumber => "partition_number",
            AttributeId::Plant => "plant",
            AttributeId::SecondaryCapability => "secondary_capability",
            AttributeId::SequenceCode => "sequence_code",
            AttributeId::Type => "type",
            AttributeId::ProratedCoreTime => "prorated_core_time",
            AttributeId::NumCpThreads => "num_cp_threads",
            AttributeId::NumIflThreads => "num_ifl_threads",
            AttributeId::NumZiipThreads => "num_ziip_threads",
            AttributeId::NumCoreTotal => "num_core_total",
            AttributeId::NumCoreConfigured => "num_core_configured",
            AttributeId::NumCoreStandby => "num_core_standby",
            AttributeId::NumCoreReserved => "num_core_reserved",
            AttributeId::NumCoreDedicated => "num_core_dedicated",
            AttributeId::NumCoreShared => "num_core_shared",
            AttributeId::TypeName => "type_name",
            AttributeId::LicIdentifier => "lic_identifier",
        }
    }
}

/// Two catalog entries share a numeric identifier only when they resolve to
/// the same canonical entry: the sanctioned alias pairs are the only
/// identifier collisions in the catalog.
pub proof fn lemma_attr_code_collision_is_alias(a: AttributeId, b: AttributeId)
    ensures
        attr_code(a) == attr_code(b) ==> canonical_attr(a) == canonical_attr(b),
{
}

/// Alias resolution never changes the numeric identifier: encoding a
/// deprecated name produces the identifier of its replacement.
pub proof fn lemma_canonical_keeps_code(a: AttributeId)
    ensures
        attr_code(canonical_attr(a)) == attr_code(a),
        attr_kind(canonical_attr(a)) == attr_kind(a),
{
}



/// Every entry of the attribute catalog, in declaration order.
pub open spec fn attr_catalog() -> Seq<AttributeId> {
    seq![
        AttributeId::Adjustment,
        AttributeId::Capability,
        AttributeId::CapacityAdjustmentIndication,
        AttributeId::CapacityChangeReason,
        AttributeId::Capping,
        AttributeId::CappingNum,
        AttributeId::ClusterName,
        AttributeId::ControlProgramId,
        AttributeId::CpAbsoluteCapping,
        AttributeId::CpCapacityCap,
        AttributeId::CpCappedCapacity,
        AttributeId::CpDispatchLimithard,
        AttributeId::CpDispatchType,
        AttributeId::CpLimithardCap,
        AttributeId::CpWeightCapping,
        AttributeId::LimithardConsumption,
        AttributeId::HardlimitConsumption,
        AttributeId::HasMultipleCpuTypes,
        AttributeId::IflAbsoluteCapping,
        AttributeId::IflCapacityCap,
        AttributeId::IflCappedCapacity,
        AttributeId::IflDispatchLimithard,
        AttributeId::IflDispatchType,
        AttributeId::IflLimithardCap,
        AttributeId::IflWeightCapping,
        AttributeId::ZiipAbsoluteCapping,
        AttributeId::ZiipCapacityCap,
        AttributeId::ZiipCappedCapacity,
        AttributeId::ZiipDispatchLimithard,
        AttributeId::ZiipDispatchType,
        AttributeId::ZiipLimithardCap,
        AttributeId::ZiipWeightCapping,
        AttributeId::LayerCategory,
        AttributeId::LayerCategoryNum,
        AttributeId::LayerExtendedName,
        AttributeId::LayerName,
        AttributeId::LayerType,
        AttributeId::LayerTypeNum,
        AttributeId::LayerUuid,
        AttributeId::Manufacturer,
        AttributeId::MobilityEnabled,
        AttributeId::MobilityEligible,
        AttributeId::HasSecure,
        AttributeId::Secure,
        AttributeId::Model,
        AttributeId::ModelCapacity,
        AttributeId::TypeFamily,
        AttributeId::NumCpDedicated,
        AttributeId::NumCpShared,
        AttributeId::NumCpTotal,
        AttributeId::NumCpuConfigured,
        AttributeId::NumCpuDedicated,
        AttributeId::NumCpuReserved,
        AttributeId::NumCpuShared,
        AttributeId::NumCpuStandby,
        AttributeId::NumCpuTotal,
        AttributeId::NumIflDedicated,
        AttributeId::NumIflShared,
        AttributeId::NumIflTotal,
        AttributeId::NumZiipDedicated,
        AttributeId::NumZiipShared,
        AttributeId::NumZiipTotal,
        AttributeId::PartitionChar,
        AttributeId::PartitionCharNum,
        AttributeId::PartitionNumber,
        AttributeId::Plant,
        AttributeId::SecondaryCapability,
        AttributeId::SequenceCode,
        AttributeId::Type,
        AttributeId::ProratedCoreTime,
        AttributeId::NumCpThreads,
        AttributeId::NumIflThreads,
        AttributeId::NumZiipThreads,
        AttributeId::NumCoreTotal,
        AttributeId::NumCoreConfigured,
        AttributeId::NumCoreStandby,
        AttributeId::NumCoreReserved,
        AttributeId::NumCoreDedicated,
        AttributeId::NumCoreShared,
        AttributeId::TypeName,
        AttributeId::LicIdentifier,
    ]
}

impl AttributeId {
    /// Every entry of the attribute catalog, in declaration order, for
    /// callers that sweep the whole catalog.
    #[verifier::rlimit(60)]
    pub fn catalog() -> (v: Vec<AttributeId>)
        ensures
            v@ == attr_catalog(),
    {
        let mut v: Vec<AttributeId> = Vec::new();
        v.push(AttributeId::Adjustment);
        v.push(AttributeId::Capability);
        v.push(AttributeId::CapacityAdjustmentIndication);
        v.push(AttributeId::CapacityChangeReason);
        v.push(AttributeId::Capping);
        v.push(AttributeId::CappingNum);
        v.push(AttributeId::ClusterName);
        v.push(AttributeId::ControlProgramId);
        v.push(AttributeId::CpAbsoluteCapping);
        v.push(AttributeId::CpCapacityCap);
        v.push(AttributeId::CpCappedCapacity);
        v.push(AttributeId::CpDispatchLimithard);
        v.push(AttributeId::CpDispatchType);
        v.push(AttributeId::CpLimithardCap);
        v.push(AttributeId::CpWeightCapping);
        v.push(AttributeId::LimithardConsumption);
        v.push(AttributeId::HardlimitConsumption);
        v.push(AttributeId::HasMultipleCpuTypes);
        v.push(AttributeId::IflAbsoluteCapping);
        v.push(AttributeId::IflCapacityCap);
        v.push(AttributeId::IflCappedCapacity);
        v.push(AttributeId::IflDispatchLimithard);
        v.push(AttributeId::IflDispatchType);
        v.push(AttributeId::IflLimithardCap);
        v.push(AttributeId::IflWeightCapping);
        v.push(AttributeId::ZiipAbsoluteCapping);
        v.push(AttributeId::ZiipCapacityCap);
        v.push(AttributeId::ZiipCappedCapacity);
        v.push(AttributeId::ZiipDispatchLimithard);
        v.push(AttributeId::ZiipDispatchType);
        v.push(AttributeId::ZiipLimithardCap);
        v.push(AttributeId::ZiipWeightCapping);
        v.push(AttributeId::LayerCategory);
        v.push(AttributeId::LayerCategoryNum);
        v.push(AttributeId::LayerExtendedName);
        v.push(AttributeId::LayerName);
        v.push(AttributeId::LayerType);
        v.push(AttributeId::LayerTypeNum);
        v.push(AttributeId::LayerUuid);
        v.push(AttributeId::Manufacturer);
        v.push(AttributeId::MobilityEnabled);
        v.push(AttributeId::MobilityEligible);
        v.push(AttributeId::HasSecure);
        v.push(AttributeId::Secure);
        v.push(AttributeId::Model);
        v.push(AttributeId::ModelCapacity);
        v.push(AttributeId::TypeFamily);
        v.push(AttributeId::NumCpDedicated);
        v.push(AttributeId::NumCpShared);
        v.push(AttributeId::NumCpTotal);
        v.push(AttributeId::NumCpuConfigured);
        v.push(AttributeId::NumCpuDedicated);
        v.push(AttributeId::NumCpuReserved);
        v.push(AttributeId::NumCpuShared);
        v.push(AttributeId::NumCpuStandby);
        v.push(AttributeId::NumCpuTotal);
        v.push(AttributeId::NumIflDedicated);
        v.push(AttributeId::NumIflShared);
        v.push(AttributeId::NumIflTotal);
        v.push(AttributeId::NumZiipDedicated);
        v.push(AttributeId::NumZiipShared);
        v.push(AttributeId::NumZiipTotal);
        v.push(AttributeId::PartitionChar);
        v.push(AttributeId::PartitionCharNum);
        v.push(AttributeId::PartitionNumber);
        v.push(AttributeId::Plant);
        v.push(AttributeId::SecondaryCapability);
        v.push(AttributeId::SequenceCode);
        v.push(AttributeId::Type);
        v.push(AttributeId::ProratedCoreTime);
        v.push(AttributeId::NumCpThreads);
        v.push(AttributeId::NumIflThreads);
        v.push(AttributeId::NumZiipThreads);
        v.push(AttributeId::NumCoreTotal);
        v.push(AttributeId::NumCoreConfigured);
        v.push(AttributeId::NumCoreStandby);
        v.push(AttributeId::NumCoreReserved);
        v.push(AttributeId::NumCoreDedicated);
        v.push(AttributeId::NumCoreShared);
        v.push(AttributeId::TypeName);
        v.push(AttributeId::LicIdentifier);
        proof {
            assert(v@ =~= attr_catalog());
        }
        v
    }
}

} // verus!



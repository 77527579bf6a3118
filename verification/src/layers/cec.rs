use vstd::prelude::*;

use crate::enums::{attr_code, AttributeId};
use crate::error::Error;
use crate::json::JsonObj;
use crate::layers::{append_table_json, table_json, TableRow};
use crate::snapshot::{
    float_query_matches, int_query_matches, resp_of, string_query_matches, LayerModel,
    QueryCapacity,
};

verus! {

/// A view of the detail attributes of the CEC: the physical machine at the bottom of the stack.
///
/// Every accessor queries one attribute independently; any of them may be
/// legitimately absent even though the field always exists in the
/// serialized shape of this kind.
pub struct CEC<'h> {
    /// The capacity record this view borrows.
    pub qc: &'h QueryCapacity,
    /// The 0-based index of the layer this view reads.
    pub layer: u32,
}

/// The projection table of this kind: each serialized field with the
/// attribute it queries, in serialization order.
pub open spec fn cec_table() -> Seq<TableRow> {
    seq![
        (AttributeId::Manufacturer, AttributeId::Manufacturer),
        (AttributeId::Type, AttributeId::Type),
        (AttributeId::TypeName, AttributeId::TypeName),
        (AttributeId::TypeFamily, AttributeId::TypeFamily),
        (AttributeId::ModelCapacity, AttributeId::ModelCapacity),
        (AttributeId::Model, AttributeId::Model),
        (AttributeId::SequenceCode, AttributeId::SequenceCode),
        (AttributeId::LicIdentifier, AttributeId::LicIdentifier),
        (AttributeId::Plant, AttributeId::Plant),
        (AttributeId::NumCoreTotal, AttributeId::NumCoreTotal),
        (AttributeId::NumCoreConfigured, AttributeId::NumCoreConfigured),
        (AttributeId::NumCoreStandby, AttributeId::NumCoreStandby),
        (AttributeId::NumCoreReserved, AttributeId::NumCoreReserved),
        (AttributeId::NumCoreDedicated, AttributeId::NumCoreDedicated),
        (AttributeId::NumCoreShared, AttributeId::NumCoreShared),
        (AttributeId::NumCpTotal, AttributeId::NumCpTotal),
        (AttributeId::NumCpDedicated, AttributeId::NumCpDedicated),
        (AttributeId::NumCpShared, AttributeId::NumCpShared),
        (AttributeId::NumIflTotal, AttributeId::NumIflTotal),
        (AttributeId::NumIflDedicated, AttributeId::NumIflDedicated),
        (AttributeId::NumIflShared, AttributeId::NumIflShared),
        (AttributeId::NumZiipTotal, AttributeId::NumZiipTotal),
        (AttributeId::NumZiipDedicated, AttributeId::NumZiipDedicated),
        (AttributeId::NumZiipShared, AttributeId::NumZiipShared),
        (AttributeId::NumCpThreads, AttributeId::NumCpThreads),
        (AttributeId::NumIflThreads, AttributeId::NumIflThreads),
        (AttributeId::NumZiipThreads, AttributeId::NumZiipThreads),
        (AttributeId::Capability, AttributeId::Capability),
        (AttributeId::SecondaryCapability, AttributeId::SecondaryCapability),
        (AttributeId::CapacityAdjustmentIndication, AttributeId::CapacityAdjustmentIndication),
        (AttributeId::CapacityChangeReason, AttributeId::CapacityChangeReason),
    ]
}

/// The projection table, as the projector consumes it.
fn cec_rows() -> (v: Vec<TableRow>)
    ensures
        v@ == cec_table(),
{
    let mut v: Vec<TableRow> = Vec::new();
    v.push((AttributeId::Manufacturer, AttributeId::Manufacturer));
    v.push((AttributeId::Type, AttributeId::Type));
    v.push((AttributeId::TypeName, AttributeId::TypeName));
    v.push((AttributeId::TypeFamily, AttributeId::TypeFamily));
    v.push((AttributeId::ModelCapacity, AttributeId::ModelCapacity));
    v.push((AttributeId::Model, AttributeId::Model));
    v.push((AttributeId::SequenceCode, AttributeId::SequenceCode));
    v.push((AttributeId::LicIdentifier, AttributeId::LicIdentifier));
    v.push((AttributeId::Plant, AttributeId::Plant));
    v.push((AttributeId::NumCoreTotal, AttributeId::NumCoreTotal));
    v.push((AttributeId::NumCoreConfigured, AttributeId::NumCoreConfigured));
    v.push((AttributeId::NumCoreStandby, AttributeId::NumCoreStandby));
    v.push((AttributeId::NumCoreReserved, AttributeId::NumCoreReserved));
    v.push((AttributeId::NumCoreDedicated, AttributeId::NumCoreDedicated));
    v.push((AttributeId::NumCoreShared, AttributeId::NumCoreShared));
    v.push((AttributeId::NumCpTotal, AttributeId::NumCpTotal));
    v.push((AttributeId::NumCpDedicated, AttributeId::NumCpDedicated));
    v.push((AttributeId::NumCpShared, AttributeId::NumCpShared));
    v.push((AttributeId::NumIflTotal, AttributeId::NumIflTotal));
    v.push((AttributeId::NumIflDedicated, AttributeId::NumIflDedicated));
    v.push((AttributeId::NumIflShared, AttributeId::NumIflShared));
    v.push((AttributeId::NumZiipTotal, AttributeId::NumZiipTotal));
    v.push((AttributeId::NumZiipDedicated, AttributeId::NumZiipDedicated));
    v.push((AttributeId::NumZiipShared, AttributeId::NumZiipShared));
    v.push((AttributeId::NumCpThreads, AttributeId::NumCpThreads));
    v.push((AttributeId::NumIflThreads, AttributeId::NumIflThreads));
    v.push((AttributeId::NumZiipThreads, AttributeId::NumZiipThreads));
    v.push((AttributeId::Capability, AttributeId::Capability));
    v.push((AttributeId::SecondaryCapability, AttributeId::SecondaryCapability));
    v.push((AttributeId::CapacityAdjustmentIndication, AttributeId::CapacityAdjustmentIndication));
    v.push((AttributeId::CapacityChangeReason, AttributeId::CapacityChangeReason));
    proof {
        assert(v@ =~= cec_table());
    }
    v
}

impl<'h> CEC<'h> {
    /// The layer index lies within the record this view borrows.
    pub open spec fn wf(&self) -> bool {
        (self.layer as int) < self.qc@.len()
    }

    /// The recorded answers of the layer this view reads.
    pub open spec fn entries(&self) -> LayerModel {
        self.qc@[self.layer as int]
    }

    /// Queries the `Manufacturer` attribute of this layer.
    pub fn manufacturer(&self) -> (r: Result<Option<String>, Error>)
        requires
            self.wf(),
        ensures
            string_query_matches(
                r,
                resp_of(self.entries(), attr_code(AttributeId::Manufacturer)),
                attr_code(AttributeId::Manufacturer),
            ),
    {
        self.qc.get_attribute_string(self.layer, AttributeId::Manufacturer)
    }

    /// Queries the `Type` attribute of this layer.
    pub fn machine_type(&self) -> (r: Result<Option<String>, Error>)
        requires
            self.wf(),
        ensures
            string_query_matches(
                r,
                resp_of(self.entries(), attr_code(AttributeId::Type)),
                attr_code(AttributeId::Type),
            ),
    {
        self.qc.get_attribute_string(self.layer, AttributeId::Type)
    }

    /// Queries the `TypeName` attribute of this layer.
    pub fn machine_type_name(&self) -> (r: Result<Option<String>, Error>)
        requires
            self.wf(),
        ensures
            string_query_matches(
                r,
                resp_of(self.entries(), attr_code(AttributeId::TypeName)),
                attr_code(AttributeId::TypeName),
            ),
    {
        self.qc.get_attribute_string(self.layer, AttributeId::TypeName)
    }

    /// Queries the `TypeFamily` attribute of this layer.
    pub fn type_family(&self) -> (r: Result<Option<i32>, Error>)
        requires
            self.wf(),
        ensures
            int_query_matches(
                r,
                resp_of(self.entries(), attr_code(AttributeId::TypeFamily)),
                attr_code(AttributeId::TypeFamily),
            ),
    {
        self.qc.get_attribute_int(self.layer, AttributeId::TypeFamily)
    }

    /// Queries the `ModelCapacity` attribute of this layer.
    pub fn model_capacity(&self) -> (r: Result<Option<String>, Error>)
        requires
            self.wf(),
        ensures
            string_query_matches(
                r,
                resp_of(self.entries(), attr_code(AttributeId::ModelCapacity)),
                attr_code(AttributeId::ModelCapacity),
            ),
    {
        self.qc.get_attribute_string(self.layer, AttributeId::ModelCapacity)
    }

    /// Queries the `Model` attribute of this layer.
    pub fn model(&self) -> (r: Result<Option<String>, Error>)
        requires
            self.wf(),
        ensures
            string_query_matches(
                r,
                resp_of(self.entries(), attr_code(AttributeId::Model)),
                attr_code(AttributeId::Model),
            ),
    {
        self.qc.get_attribute_string(self.layer, AttributeId::Model)
    }

    /// Queries the `SequenceCode` attribute of this layer.
    pub fn sequence_code(&self) -> (r: Result<Option<String>, Error>)
        requires
            self.wf(),
        ensures
            string_query_matches(
                r,
                resp_of(self.entries(), attr_code(AttributeId::SequenceCode)),
                attr_code(AttributeId::SequenceCode),
            ),
    {
        self.qc.get_attribute_string(self.layer, AttributeId::SequenceCode)
    }

    /// Queries the `LicIdentifier` attribute of this layer.
    pub fn lic_identifier(&self) -> (r: Result<Option<String>, Error>)
        requires
            self.wf(),
        ensures
            string_query_matches(
                r,
                resp_of(self.entries(), attr_code(AttributeId::LicIdentifier)),
                attr_code(AttributeId::LicIdentifier),
            ),
    {
        self.qc.get_attribute_string(self.layer, AttributeId::LicIdentifier)
    }

    /// Queries the `Plant` attribute of this layer.
    pub fn plant(&self) -> (r: Result<Option<String>, Error>)
        requires
            self.wf(),
        ensures
            string_query_matches(
                r,
                resp_of(self.entries(), attr_code(AttributeId::Plant)),
                attr_code(AttributeId::Plant),
            ),
    {
        self.qc.get_attribute_string(self.layer, AttributeId::Plant)
    }

    /// Queries the `NumCoreTotal` attribute of this layer.
    pub fn num_core_total(&self) -> (r: Result<Option<i32>, Error>)
        requires
            self.wf(),
        ensures
            int_query_matches(
                r,
                resp_of(self.entries(), attr_code(AttributeId::NumCoreTotal)),
                attr_code(AttributeId::NumCoreTotal),
            ),
    {
        self.qc.get_attribute_int(self.layer, AttributeId::NumCoreTotal)
    }

    /// Queries the `NumCoreConfigured` attribute of this layer.
    pub fn num_core_configured(&self) -> (r: Result<Option<i32>, Error>)
        requires
            self.wf(),
        ensures
            int_query_matches(
                r,
                resp_of(self.entries(), attr_code(AttributeId::NumCoreConfigured)),
                attr_code(AttributeId::NumCoreConfigured),
            ),
    {
        self.qc.get_attribute_int(self.layer, AttributeId::NumCoreConfigured)
    }

    /// Queries the `NumCoreStandby` attribute of this layer.
    pub fn num_core_standby(&self) -> (r: Result<Option<i32>, Error>)
        requires
            self.wf(),
        ensures
            int_query_matches(
                r,
                resp_of(self.entries(), attr_code(AttributeId::NumCoreStandby)),
                attr_code(AttributeId::NumCoreStandby),
            ),
    {
        self.qc.get_attribute_int(self.layer, AttributeId::NumCoreStandby)
    }

    /// Queries the `NumCoreReserved` attribute of this layer.
    pub fn num_core_reserved(&self) -> (r: Result<Option<i32>, Error>)
        requires
            self.wf(),
        ensures
            int_query_matches(
                r,
                resp_of(self.entries(), attr_code(AttributeId::NumCoreReserved)),
                attr_code(AttributeId::NumCoreReserved),
            ),
    {
        self.qc.get_attribute_int(self.layer, AttributeId::NumCoreReserved)
    }

    /// Queries the `NumCoreDedicated` attribute of this layer.
    pub fn num_core_dedicated(&self) -> (r: Result<Option<i32>, Error>)
        requires
            self.wf(),
        ensures
            int_query_matches(
                r,
                resp_of(self.entries(), attr_code(AttributeId::NumCoreDedicated)),
                attr_code(AttributeId::NumCoreDedicated),
            ),
    {
        self.qc.get_attribute_int(self.layer, AttributeId::NumCoreDedicated)
    }

    /// Queries the `NumCoreShared` attribute of this layer.
    pub fn num_core_shared(&self) -> (r: Result<Option<i32>, Error>)
        requires
            self.wf(),
        ensures
            int_query_matches(
                r,
                resp_of(self.entries(), attr_code(AttributeId::NumCoreShared)),
                attr_code(AttributeId::NumCoreShared),
            ),
    {
        self.qc.get_attribute_int(self.layer, AttributeId::NumCoreShared)
    }

    /// Queries the `NumCpTotal` attribute of this layer.
    pub fn num_cp_total(&self) -> (r: Result<Option<i32>, Error>)
        requires
            self.wf(),
        ensures
            int_query_matches(
                r,
                resp_of(self.entries(), attr_code(AttributeId::NumCpTotal)),
                attr_code(AttributeId::NumCpTotal),
            ),
    {
        self.qc.get_attribute_int(self.layer, AttributeId::NumCpTotal)
    }

    /// Queries the `NumCpDedicated` attribute of this layer.
    pub fn num_cp_dedicated(&self) -> (r: Result<Option<i32>, Error>)
        requires
            self.wf(),
        ensures
            int_query_matches(
                r,
                resp_of(self.entries(), attr_code(AttributeId::NumCpDedicated)),
                attr_code(AttributeId::NumCpDedicated),
            ),
    {
        self.qc.get_attribute_int(self.layer, AttributeId::NumCpDedicated)
    }

    /// Queries the `NumCpShared` attribute of this layer.
    pub fn num_cp_shared(&self) -> (r: Result<Option<i32>, Error>)
        requires
            self.wf(),
        ensures
            int_query_matches(
                r,
                resp_of(self.entries(), attr_code(AttributeId::NumCpShared)),
                attr_code(AttributeId::NumCpShared),
            ),
    {
        self.qc.get_attribute_int(self.layer, AttributeId::NumCpShared)
    }

    /// Queries the `NumIflTotal` attribute of this layer.
    pub fn num_ifl_total(&self) -> (r: Result<Option<i32>, Error>)
        requires
            self.wf(),
        ensures
            int_query_matches(
                r,
                resp_of(self.entries(), attr_code(AttributeId::NumIflTotal)),
                attr_code(AttributeId::NumIflTotal),
            ),
    {
        self.qc.get_attribute_int(self.layer, AttributeId::NumIflTotal)
    }

    /// Queries the `NumIflDedicated` attribute of this layer.
    pub fn num_ifl_dedicated(&self) -> (r: Result<Option<i32>, Error>)
        requires
            self.wf(),
        ensures
            int_query_matches(
                r,
                resp_of(self.entries(), attr_code(AttributeId::NumIflDedicated)),
                attr_code(AttributeId::NumIflDedicated),
            ),
    {
        self.qc.get_attribute_int(self.layer, AttributeId::NumIflDedicated)
    }

    /// Queries the `NumIflShared` attribute of this layer.
    pub fn num_ifl_shared(&self) -> (r: Result<Option<i32>, Error>)
        requires
            self.wf(),
        ensures
            int_query_matches(
                r,
                resp_of(self.entries(), attr_code(AttributeId::NumIflShared)),
                attr_code(AttributeId::NumIflShared),
            ),
    {
        self.qc.get_attribute_int(self.layer, AttributeId::NumIflShared)
    }

    /// Queries the `NumZiipTotal` attribute of this layer.
    pub fn num_ziip_total(&self) -> (r: Result<Option<i32>, Error>)
        requires
            self.wf(),
        ensures
            int_query_matches(
                r,
                resp_of(self.entries(), attr_code(AttributeId::NumZiipTotal)),
                attr_code(AttributeId::NumZiipTotal),
            ),
    {
        self.qc.get_attribute_int(self.layer, AttributeId::NumZiipTotal)
    }

    /// Queries the `NumZiipDedicated` attribute of this layer.
    pub fn num_ziip_dedicated(&self) -> (r: Result<Option<i32>, Error>)
        requires
            self.wf(),
        ensures
            int_query_matches(
                r,
                resp_of(self.entries(), attr_code(AttributeId::NumZiipDedicated)),
                attr_code(AttributeId::NumZiipDedicated),
            ),
    {
        self.qc.get_attribute_int(self.layer, AttributeId::NumZiipDedicated)
    }

    /// Queries the `NumZiipShared` attribute of this layer.
    pub fn num_ziip_shared(&self) -> (r: Result<Option<i32>, Error>)
        requires
            self.wf(),
        ensures
            int_query_matches(
                r,
                resp_of(self.entries(), attr_code(AttributeId::NumZiipShared)),
                attr_code(AttributeId::NumZiipShared),
            ),
    {
        self.qc.get_attribute_int(self.layer, AttributeId::NumZiipShared)
    }

    /// Queries the `NumCpThreads` attribute of this layer.
    pub fn num_cp_threads(&self) -> (r: Result<Option<i32>, Error>)
        requires
            self.wf(),
        ensures
            int_query_matches(
                r,
                resp_of(self.entries(), attr_code(AttributeId::NumCpThreads)),
                attr_code(AttributeId::NumCpThreads),
            ),
    {
        self.qc.get_attribute_int(self.layer, AttributeId::NumCpThreads)
    }

    /// Queries the `NumIflThreads` attribute of this layer.
    pub fn num_ifl_threads(&self) -> (r: Result<Option<i32>, Error>)
        requires
            self.wf(),
        ensures
            int_query_matches(
                r,
                resp_of(self.entries(), attr_code(AttributeId::NumIflThreads)),
                attr_code(AttributeId::NumIflThreads),
            ),
    {
        self.qc.get_attribute_int(self.layer, AttributeId::NumIflThreads)
    }

    /// Queries the `NumZiipThreads` attribute of this layer.
    pub fn num_ziip_threads(&self) -> (r: Result<Option<i32>, Error>)
        requires
            self.wf(),
        ensures
            int_query_matches(
                r,
                resp_of(self.entries(), attr_code(AttributeId::NumZiipThreads)),
                attr_code(AttributeId::NumZiipThreads),
            ),
    {
        self.qc.get_attribute_int(self.layer, AttributeId::NumZiipThreads)
    }

    /// Queries the `Capability` attribute of this layer, as the raw bit pattern of a 32-bit floating-point value.
    pub fn capability(&self) -> (r: Result<Option<u32>, Error>)
        requires
            self.wf(),
        ensures
            float_query_matches(
                r,
                resp_of(self.entries(), attr_code(AttributeId::Capability)),
                attr_code(AttributeId::Capability),
            ),
    {
        self.qc.get_attribute_float(self.layer, AttributeId::Capability)
    }

    /// Queries the `SecondaryCapability` attribute of this layer, as the raw bit pattern of a 32-bit floating-point value.
    pub fn secondary_capability(&self) -> (r: Result<Option<u32>, Error>)
        requires
            self.wf(),
        ensures
            float_query_matches(
                r,
                resp_of(self.entries(), attr_code(AttributeId::SecondaryCapability)),
                attr_code(AttributeId::SecondaryCapability),
            ),
    {
        self.qc.get_attribute_float(self.layer, AttributeId::SecondaryCapability)
    }

    /// Queries the `CapacityAdjustmentIndication` attribute of this layer.
    pub fn capacity_adjustment_indication(&self) -> (r: Result<Option<i32>, Error>)
        requires
            self.wf(),
        ensures
            int_query_matches(
                r,
                resp_of(self.entries(), attr_code(AttributeId::CapacityAdjustmentIndication)),
                attr_code(AttributeId::CapacityAdjustmentIndication),
            ),
    {
        self.qc.get_attribute_int(self.layer, AttributeId::CapacityAdjustmentIndication)
    }

    /// Queries the `CapacityChangeReason` attribute of this layer.
    pub fn capacity_change_reason(&self) -> (r: Result<Option<i32>, Error>)
        requires
            self.wf(),
        ensures
            int_query_matches(
                r,
                resp_of(self.entries(), attr_code(AttributeId::CapacityChangeReason)),
                attr_code(AttributeId::CapacityChangeReason),
            ),
    {
        self.qc.get_attribute_int(self.layer, AttributeId::CapacityChangeReason)
    }

    /// Appends every serialized field of this kind to `obj`, in order,
    /// with an explicit null for each absent attribute; stops at the
    /// first failing query and returns its error.
    pub fn update_json(&self, obj: &mut JsonObj) -> (r: Result<(), Error>)
        requires
            self.wf(),
        ensures
            table_json(self.entries(), cec_table()) matches Ok(pairs) ==> r is Ok
                && final(obj)@ == old(obj)@ + pairs,
            table_json(self.entries(), cec_table()) matches Err(e) ==> r == Err::<
                (),
                Error,
            >(e),
    {
        let rows = cec_rows();
        append_table_json(self.qc, self.layer, &rows, obj)
    }
}

} // verus!

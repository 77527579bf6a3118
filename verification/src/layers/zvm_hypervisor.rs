use vstd::prelude::*;

use crate::enums::{attr_code, AttributeId};
use crate::error::Error;
use crate::json::JsonObj;
use crate::layers::{append_table_json, table_json, TableRow};
use crate::snapshot::{
    float_query_matches, int_query_matches, resp_of, string_query_matches, LayerModel,
    QueryCapacity,
};

verus! {

/// A view of the detail attributes of a z/VM hypervisor.
///
/// Every accessor queries one attribute independently; any of them may be
/// legitimately absent even though the field always exists in the
/// serialized shape of this kind.
pub struct ZvmHypervisor<'h> {
    /// The capacity record this view borrows.
    pub qc: &'h QueryCapacity,
    /// The 0-based index of the layer this view reads.
    pub layer: u32,
}

/// The projection table of this kind: each serialized field with the
/// attribute it queries, in serialization order.
pub open spec fn zvm_hypervisor_table() -> Seq<TableRow> {
    seq![
        (AttributeId::ClusterName, AttributeId::ClusterName),
        (AttributeId::ControlProgramId, AttributeId::ControlProgramId),
        (AttributeId::Adjustment, AttributeId::Adjustment),
        (AttributeId::LimithardConsumption, AttributeId::LimithardConsumption),
        (AttributeId::ProratedCoreTime, AttributeId::ProratedCoreTime),
        (AttributeId::NumCoreTotal, AttributeId::NumCoreTotal),
        (AttributeId::NumCoreDedicated, AttributeId::NumCoreDedicated),
        (AttributeId::NumCoreShared, AttributeId::NumCoreShared),
        (AttributeId::NumCpTotal, AttributeId::NumCpTotal),
        (AttributeId::NumCpDedicated, AttributeId::NumCpDedicated),
        (AttributeId::NumCpShared, AttributeId::NumCpShared),
        (AttributeId::NumIflTotal, AttributeId::NumIflTotal),
        (AttributeId::NumIflDedicated, AttributeId::NumIflDedicated),
        (AttributeId::NumIflShared, AttributeId::NumIflShared),
        (AttributeId::NumZiipTotal, AttributeId::NumZiipTotal),
        (AttributeId::NumZiipDedicated, AttributeId::NumZiipDedicated),
        (AttributeId::NumZiipShared, AttributeId::NumZiipShared),
        (AttributeId::NumCpThreads, AttributeId::NumCpThreads),
        (AttributeId::NumIflThreads, AttributeId::NumIflThreads),
        (AttributeId::NumZiipThreads, AttributeId::NumZiipThreads),
    ]
}

/// The projection table, as the projector consumes it.
fn zvm_hypervisor_rows() -> (v: Vec<TableRow>)
    ensures
        v@ == zvm_hypervisor_table(),
{
    let mut v: Vec<TableRow> = Vec::new();
    v.push((AttributeId::ClusterName, AttributeId::ClusterName));
    v.push((AttributeId::ControlProgramId, AttributeId::ControlProgramId));
    v.push((AttributeId::Adjustment, AttributeId::Adjustment));
    v.push((AttributeId::LimithardConsumption, AttributeId::LimithardConsumption));
    v.push((AttributeId::ProratedCoreTime, AttributeId::ProratedCoreTime));
    v.push((AttributeId::NumCoreTotal, AttributeId::NumCoreTotal));
    v.push((AttributeId::NumCoreDedicated, AttributeId::NumCoreDedicated));
    v.push((AttributeId::NumCoreShared, AttributeId::NumCoreShared));
    v.push((AttributeId::NumCpTotal, AttributeId::NumCpTotal));
    v.push((AttributeId::NumCpDedicated, AttributeId::NumCpDedicated));
    v.push((AttributeId::NumCpShared, AttributeId::NumCpShared));
    v.push((AttributeId::NumIflTotal, AttributeId::NumIflTotal));
    v.push((AttributeId::NumIflDedicated, AttributeId::NumIflDedicated));
    v.push((AttributeId::NumIflShared, AttributeId::NumIflShared));
    v.push((AttributeId::NumZiipTotal, AttributeId::NumZiipTotal));
    v.push((AttributeId::NumZiipDedicated, AttributeId::NumZiipDedicated));
    v.push((AttributeId::NumZiipShared, AttributeId::NumZiipShared));
    v.push((AttributeId::NumCpThreads, AttributeId::NumCpThreads));
    v.push((AttributeId::NumIflThreads, AttributeId::NumIflThreads));
    v.push((AttributeId::NumZiipThreads, AttributeId::NumZiipThreads));
    proof {
        assert(v@ =~= zvm_hypervisor_table());
    }
    v
}

impl<'h> ZvmHypervisor<'h> {
    /// The layer index lies within the record this view borrows.
    pub open spec fn wf(&self) -> bool {
        (self.layer as int) < self.qc@.len()
    }

    /// The recorded answers of the layer this view reads.
    pub open spec fn entries(&self) -> LayerModel {
        self.qc@[self.layer as int]
    }

    /// Queries the `ClusterName` attribute of this layer.
    pub fn cluster_name(&self) -> (r: Result<Option<String>, Error>)
        requires
            self.wf(),
        ensures
            string_query_matches(
                r,
                resp_of(self.entries(), attr_code(AttributeId::ClusterName)),
                attr_code(AttributeId::ClusterName),
            ),
    {
        self.qc.get_attribute_string(self.layer, AttributeId::ClusterName)
    }

    /// Queries the `ControlProgramId` attribute of this layer.
    pub fn control_program_id(&self) -> (r: Result<Option<String>, Error>)
        requires
            self.wf(),
        ensures
            string_query_matches(
                r,
                resp_of(self.entries(), attr_code(AttributeId::ControlProgramId)),
                attr_code(AttributeId::ControlProgramId),
            ),
    {
        self.qc.get_attribute_string(self.layer, AttributeId::ControlProgramId)
    }

    /// Queries the `Adjustment` attribute of this layer.
    pub fn adjustment(&self) -> (r: Result<Option<i32>, Error>)
        requires
            self.wf(),
        ensures
            int_query_matches(
                r,
                resp_of(self.entries(), attr_code(AttributeId::Adjustment)),
                attr_code(AttributeId::Adjustment),
            ),
    {
        self.qc.get_attribute_int(self.layer, AttributeId::Adjustment)
    }

    /// Queries the `LimithardConsumption` attribute of this layer.
    pub fn limithard_consumption(&self) -> (r: Result<Option<i32>, Error>)
        requires
            self.wf(),
        ensures
            int_query_matches(
                r,
                resp_of(self.entries(), attr_code(AttributeId::LimithardConsumption)),
                attr_code(AttributeId::LimithardConsumption),
            ),
    {
        self.qc.get_attribute_int(self.layer, AttributeId::LimithardConsumption)
    }

    /// Queries the `ProratedCoreTime` attribute of this layer.
    pub fn prorated_core_time(&self) -> (r: Result<Option<i32>, Error>)
        requires
            self.wf(),
        ensures
            int_query_matches(
                r,
                resp_of(self.entries(), attr_code(AttributeId::ProratedCoreTime)),
                attr_code(AttributeId::ProratedCoreTime),
            ),
    {
        self.qc.get_attribute_int(self.layer, AttributeId::ProratedCoreTime)
    }

    /// Queries the `NumCoreTotal` attribute of this layer.
    pub fn num_core_total(&self) -> (r: Result<Option<i32>, Error>)
        requires
            self.wf(),
        ensures
            int_query_matches(
                r,
                resp_of(self.entries(), attr_code(AttributeId::NumCoreTotal)),
                attr_code(AttributeId::NumCoreTotal),
            ),
    {
        self.qc.get_attribute_int(self.layer, AttributeId::NumCoreTotal)
    }

    /// Queries the `NumCoreDedicated` attribute of this layer.
    pub fn num_core_dedicated(&self) -> (r: Result<Option<i32>, Error>)
        requires
            self.wf(),
        ensures
            int_query_matches(
                r,
                resp_of(self.entries(), attr_code(AttributeId::NumCoreDedicated)),
                attr_code(AttributeId::NumCoreDedicated),
            ),
    {
        self.qc.get_attribute_int(self.layer, AttributeId::NumCoreDedicated)
    }

    /// Queries the `NumCoreShared` attribute of this layer.
    pub fn num_core_shared(&self) -> (r: Result<Option<i32>, Error>)
        requires
            self.wf(),
        ensures
            int_query_matches(
                r,
                resp_of(self.entries(), attr_code(AttributeId::NumCoreShared)),
                attr_code(AttributeId::NumCoreShared),
            ),
    {
        self.qc.get_attribute_int(self.layer, AttributeId::NumCoreShared)
    }

    /// Queries the `NumCpTotal` attribute of this layer.
    pub fn num_cp_total(&self) -> (r: Result<Option<i32>, Error>)
        requires
            self.wf(),
        ensures
            int_query_matches(
                r,
                resp_of(self.entries(), attr_code(AttributeId::NumCpTotal)),
                attr_code(AttributeId::NumCpTotal),
            ),
    {
        self.qc.get_attribute_int(self.layer, AttributeId::NumCpTotal)
    }

    /// Queries the `NumCpDedicated` attribute of this layer.
    pub fn num_cp_dedicated(&self) -> (r: Result<Option<i32>, Error>)
        requires
            self.wf(),
        ensures
            int_query_matches(
                r,
                resp_of(self.entries(), attr_code(AttributeId::NumCpDedicated)),
                attr_code(AttributeId::NumCpDedicated),
            ),
    {
        self.qc.get_attribute_int(self.layer, AttributeId::NumCpDedicated)
    }

    /// Queries the `NumCpShared` attribute of this layer.
    pub fn num_cp_shared(&self) -> (r: Result<Option<i32>, Error>)
        requires
            self.wf(),
        ensures
            int_query_matches(
                r,
                resp_of(self.entries(), attr_code(AttributeId::NumCpShared)),
                attr_code(AttributeId::NumCpShared),
            ),
    {
        self.qc.get_attribute_int(self.layer, AttributeId::NumCpShared)
    }

    /// Queries the `NumIflTotal` attribute of this layer.
    pub fn num_ifl_total(&self) -> (r: Result<Option<i32>, Error>)
        requires
            self.wf(),
        ensures
            int_query_matches(
                r,
                resp_of(self.entries(), attr_code(AttributeId::NumIflTotal)),
                attr_code(AttributeId::NumIflTotal),
            ),
    {
        self.qc.get_attribute_int(self.layer, AttributeId::NumIflTotal)
    }

    /// Queries the `NumIflDedicated` attribute of this layer.
    pub fn num_ifl_dedicated(&self) -> (r: Result<Option<i32>, Error>)
        requires
            self.wf(),
        ensures
            int_query_matches(
                r,
                resp_of(self.entries(), attr_code(AttributeId::NumIflDedicated)),
                attr_code(AttributeId::NumIflDedicated),
            ),
    {
        self.qc.get_attribute_int(self.layer, AttributeId::NumIflDedicated)
    }

    /// Queries the `NumIflShared` attribute of this layer.
    pub fn num_ifl_shared(&self) -> (r: Result<Option<i32>, Error>)
        requires
            self.wf(),
        ensures
            int_query_matches(
                r,
                resp_of(self.entries(), attr_code(AttributeId::NumIflShared)),
                attr_code(AttributeId::NumIflShared),
            ),
    {
        self.qc.get_attribute_int(self.layer, AttributeId::NumIflShared)
    }

    /// Queries the `NumZiipTotal` attribute of this layer.
    pub fn num_ziip_total(&self) -> (r: Result<Option<i32>, Error>)
        requires
            self.wf(),
        ensures
            int_query_matches(
                r,
                resp_of(self.entries(), attr_code(AttributeId::NumZiipTotal)),
                attr_code(AttributeId::NumZiipTotal),
            ),
    {
        self.qc.get_attribute_int(self.layer, AttributeId::NumZiipTotal)
    }

    /// Queries the `NumZiipDedicated` attribute of this layer.
    pub fn num_ziip_dedicated(&self) -> (r: Result<Option<i32>, Error>)
        requires
            self.wf(),
        ensures
            int_query_matches(
                r,
                resp_of(self.entries(), attr_code(AttributeId::NumZiipDedicated)),
                attr_code(AttributeId::NumZiipDedicated),
            ),
    {
        self.qc.get_attribute_int(self.layer, AttributeId::NumZiipDedicated)
    }

    /// Queries the `NumZiipShared` attribute of this layer.
    pub fn num_ziip_shared(&self) -> (r: Result<Option<i32>, Error>)
        requires
            self.wf(),
        ensures
            int_query_matches(
                r,
                resp_of(self.entries(), attr_code(AttributeId::NumZiipShared)),
                attr_code(AttributeId::NumZiipShared),
            ),
    {
        self.qc.get_attribute_int(self.layer, AttributeId::NumZiipShared)
    }

    /// Queries the `NumCpThreads` attribute of this layer.
    pub fn num_cp_threads(&self) -> (r: Result<Option<i32>, Error>)
        requires
            self.wf(),
        ensures
            int_query_matches(
                r,
                resp_of(self.entries(), attr_code(AttributeId::NumCpThreads)),
                attr_code(AttributeId::NumCpThreads),
            ),
    {
        self.qc.get_attribute_int(self.layer, AttributeId::NumCpThreads)
    }

    /// Queries the `NumIflThreads` attribute of this layer.
    pub fn num_ifl_threads(&self) -> (r: Result<Option<i32>, Error>)
        requires
            self.wf(),
        ensures
            int_query_matches(
                r,
                resp_of(self.entries(), attr_code(AttributeId::NumIflThreads)),
                attr_code(AttributeId::NumIflThreads),
            ),
    {
        self.qc.get_attribute_int(self.layer, AttributeId::NumIflThreads)
    }

    /// Queries the `NumZiipThreads` attribute of this layer.
    pub fn num_ziip_threads(&self) -> (r: Result<Option<i32>, Error>)
        requires
            self.wf(),
        ensures
            int_query_matches(
                r,
                resp_of(self.entries(), attr_code(AttributeId::NumZiipThreads)),
                attr_code(AttributeId::NumZiipThreads),
            ),
    {
        self.qc.get_attribute_int(self.layer, AttributeId::NumZiipThreads)
    }

    /// Appends every serialized field of this kind to `obj`, in order,
    /// with an explicit null for each absent attribute; stops at the
    /// first failing query and returns its error.
    pub fn update_json(&self, obj: &mut JsonObj) -> (r: Result<(), Error>)
        requires
            self.wf(),
        ensures
            table_json(self.entries(), zvm_hypervisor_table()) matches Ok(pairs) ==> r is Ok
                && final(obj)@ == old(obj)@ + pairs,
            table_json(self.entries(), zvm_hypervisor_table()) matches Err(e) ==> r == Err::<
                (),
                Error,
            >(e),
    {
        let rows = zvm_hypervisor_rows();
        append_table_json(self.qc, self.layer, &rows, obj)
    }
}

} // verus!

use vstd::prelude::*;

use crate::enums::{attr_code, AttributeId};
use crate::error::Error;
use crate::json::JsonObj;
use crate::layers::{append_table_json, table_json, TableRow};
use crate::snapshot::{
    float_query_matches, int_query_matches, resp_of, string_query_matches, LayerModel,
    QueryCapacity,
};

verus! {

/// A view of the detail attributes of a KVM hypervisor.
///
/// Every accessor queries one attribute independently; any of them may be
/// legitimately absent even though the field always exists in the
/// serialized shape of this kind.
pub struct KvmHypervisor<'h> {
    /// The capacity record this view borrows.
    pub qc: &'h QueryCapacity,
    /// The 0-based index of the layer this view reads.
    pub layer: u32,
}

/// The projection table of this kind: each serialized field with the
/// attribute it queries, in serialization order.
pub open spec fn kvm_hypervisor_table() -> Seq<TableRow> {
    seq![
        (AttributeId::ControlProgramId, AttributeId::ControlProgramId),
        (AttributeId::Adjustment, AttributeId::Adjustment),
        (AttributeId::NumCoreTotal, AttributeId::NumCoreTotal),
        (AttributeId::NumCoreDedicated, AttributeId::NumCoreDedicated),
        (AttributeId::NumCoreShared, AttributeId::NumCoreShared),
        (AttributeId::NumCpTotal, AttributeId::NumCpTotal),
        (AttributeId::NumCpDedicated, AttributeId::NumCpDedicated),
        (AttributeId::NumCpShared, AttributeId::NumCpShared),
        (AttributeId::NumIflTotal, AttributeId::NumIflTotal),
        (AttributeId::NumIflDedicated, AttributeId::NumIflDedicated),
        (AttributeId::NumIflShared, AttributeId::NumIflShared),
    ]
}

/// The projection table, as the projector consumes it.
fn kvm_hypervisor_rows() -> (v: Vec<TableRow>)
    ensures
        v@ == kvm_hypervisor_table(),
{
    let mut v: Vec<TableRow> = Vec::new();
    v.push((AttributeId::ControlProgramId, AttributeId::ControlProgramId));
    v.push((AttributeId::Adjustment, AttributeId::Adjustment));
    v.push((AttributeId::NumCoreTotal, AttributeId::NumCoreTotal));
    v.push((AttributeId::NumCoreDedicated, AttributeId::NumCoreDedicated));
    v.push((AttributeId::NumCoreShared, AttributeId::NumCoreShared));
    v.push((AttributeId::NumCpTotal, AttributeId::NumCpTotal));
    v.push((AttributeId::NumCpDedicated, AttributeId::NumCpDedicated));
    v.push((AttributeId::NumCpShared, AttributeId::NumCpShared));
    v.push((AttributeId::NumIflTotal, AttributeId::NumIflTotal));
    v.push((AttributeId::NumIflDedicated, AttributeId::NumIflDedicated));
    v.push((AttributeId::NumIflShared, AttributeId::NumIflShared));
    proof {
        assert(v@ =~= kvm_hypervisor_table());
    }
    v
}

impl<'h> KvmHypervisor<'h> {
    /// The layer index lies within the record this view borrows.
    pub open spec fn wf(&self) -> bool {
        (self.layer as int) < self.qc@.len()
    }

    /// The recorded answers of the layer this view reads.
    pub open spec fn entries(&self) -> LayerModel {
        self.qc@[self.layer as int]
    }

    /// Queries the `ControlProgramId` attribute of this layer.
    pub fn control_program_id(&self) -> (r: Result<Option<String>, Error>)
        requires
            self.wf(),
        ensures
            string_query_matches(
                r,
                resp_of(self.entries(), attr_code(AttributeId::ControlProgramId)),
                attr_code(AttributeId::ControlProgramId),
            ),
    {
        self.qc.get_attribute_string(self.layer, AttributeId::ControlProgramId)
    }

    /// Queries the `Adjustment` attribute of this layer.
    pub fn adjustment(&self) -> (r: Result<Option<i32>, Error>)
        requires
            self.wf(),
        ensures
            int_query_matches(
                r,
                resp_of(self.entries(), attr_code(AttributeId::Adjustment)),
                attr_code(AttributeId::Adjustment),
            ),
    {
        self.qc.get_attribute_int(self.layer, AttributeId::Adjustment)
    }

    /// Queries the `NumCoreTotal` attribute of this layer.
    pub fn num_core_total(&self) -> (r: Result<Option<i32>, Error>)
        requires
            self.wf(),
        ensures
            int_query_matches(
                r,
                resp_of(self.entries(), attr_code(AttributeId::NumCoreTotal)),
                attr_code(AttributeId::NumCoreTotal),
            ),
    {
        self.qc.get_attribute_int(self.layer, AttributeId::NumCoreTotal)
    }

    /// Queries the `NumCoreDedicated` attribute of this layer.
    pub fn num_core_dedicated(&self) -> (r: Result<Option<i32>, Error>)
        requires
            self.wf(),
        ensures
            int_query_matches(
                r,
                resp_of(self.entries(), attr_code(AttributeId::NumCoreDedicated)),
                attr_code(AttributeId::NumCoreDedicated),
            ),
    {
        self.qc.get_attribute_int(self.layer, AttributeId::NumCoreDedicated)
    }

    /// Queries the `NumCoreShared` attribute of this layer.
    pub fn num_core_shared(&self) -> (r: Result<Option<i32>, Error>)
        requires
            self.wf(),
        ensures
            int_query_matches(
                r,
                resp_of(self.entries(), attr_code(AttributeId::NumCoreShared)),
                attr_code(AttributeId::NumCoreShared),
            ),
    {
        self.qc.get_attribute_int(self.layer, AttributeId::NumCoreShared)
    }

    /// Queries the `NumCpTotal` attribute of this layer.
    pub fn num_cp_total(&self) -> (r: Result<Option<i32>, Error>)
        requires
            self.wf(),
        ensures
            int_query_matches(
                r,
                resp_of(self.entries(), attr_code(AttributeId::NumCpTotal)),
                attr_code(AttributeId::NumCpTotal),
            ),
    {
        self.qc.get_attribute_int(self.layer, AttributeId::NumCpTotal)
    }

    /// Queries the `NumCpDedicated` attribute of this layer.
    pub fn num_cp_dedicated(&self) -> (r: Result<Option<i32>, Error>)
        requires
            self.wf(),
        ensures
            int_query_matches(
                r,
                resp_of(self.entries(), attr_code(AttributeId::NumCpDedicated)),
                attr_code(AttributeId::NumCpDedicated),
            ),
    {
        self.qc.get_attribute_int(self.layer, AttributeId::NumCpDedicated)
    }

    /// Queries the `NumCpShared` attribute of this layer.
    pub fn num_cp_shared(&self) -> (r: Result<Option<i32>, Error>)
        requires
            self.wf(),
        ensures
            int_query_matches(
                r,
                resp_of(self.entries(), attr_code(AttributeId::NumCpShared)),
                attr_code(AttributeId::NumCpShared),
            ),
    {
        self.qc.get_attribute_int(self.layer, AttributeId::NumCpShared)
    }

    /// Queries the `NumIflTotal` attribute of this layer.
    pub fn num_ifl_total(&self) -> (r: Result<Option<i32>, Error>)
        requires
            self.wf(),
        ensures
            int_query_matches(
                r,
                resp_of(self.entries(), attr_code(AttributeId::NumIflTotal)),
                attr_code(AttributeId::NumIflTotal),
            ),
    {
        self.qc.get_attribute_int(self.layer, AttributeId::NumIflTotal)
    }

    /// Queries the `NumIflDedicated` attribute of this layer.
    pub fn num_ifl_dedicated(&self) -> (r: Result<Option<i32>, Error>)
        requires
            self.wf(),
        ensures
            int_query_matches(
                r,
                resp_of(self.entries(), attr_code(AttributeId::NumIflDedicated)),
                attr_code(AttributeId::NumIflDedicated),
            ),
    {
        self.qc.get_attribute_int(self.layer, AttributeId::NumIflDedicated)
    }

    /// Queries the `NumIflShared` attribute of this layer.
    pub fn num_ifl_shared(&self) -> (r: Result<Option<i32>, Error>)
        requires
            self.wf(),
        ensures
            int_query_matches(
                r,
                resp_of(self.entries(), attr_code(AttributeId::NumIflShared)),
                attr_code(AttributeId::NumIflShared),
            ),
    {
        self.qc.get_attribute_int(self.layer, AttributeId::NumIflShared)
    }

    /// Appends every serialized field of this kind to `obj`, in order,
    /// with an explicit null for each absent attribute; stops at the
    /// first failing query and returns its error.
    pub fn update_json(&self, obj: &mut JsonObj) -> (r: Result<(), Error>)
        requires
            self.wf(),
        ensures
            table_json(self.entries(), kvm_hypervisor_table()) matches Ok(pairs) ==> r is Ok
                && final(obj)@ == old(obj)@ + pairs,
            table_json(self.entries(), kvm_hypervisor_table()) matches Err(e) ==> r == Err::<
                (),
                Error,
            >(e),
    {
        let rows = kvm_hypervisor_rows();
        append_table_json(self.qc, self.layer, &rows, obj)
    }
}

} // verus!

use vstd::prelude::*;

use crate::enums::{attr_code, AttributeId};
use crate::error::Error;
use crate::json::JsonObj;
use crate::layers::{append_table_json, table_json, TableRow};
use crate::snapshot::{
    float_query_matches, int_query_matches, resp_of, string_query_matches, LayerModel,
    QueryCapacity,
};

verus! {

/// A view of the detail attributes of a KVM guest.
///
/// Every accessor queries one attribute independently; any of them may be
/// legitimately absent even though the field always exists in the
/// serialized shape of this kind.
pub struct KvmGuest<'h> {
    /// The capacity record this view borrows.
    pub qc: &'h QueryCapacity,
    /// The 0-based index of the layer this view reads.
    pub layer: u32,
}

/// The projection table of this kind: each serialized field with the
/// attribute it queries, in serialization order.
pub open spec fn kvm_guest_table() -> Seq<TableRow> {
    seq![
        (AttributeId::LayerExtendedName, AttributeId::LayerExtendedName),
        (AttributeId::LayerUuid, AttributeId::LayerUuid),
        (AttributeId::HasSecure, AttributeId::HasSecure),
        (AttributeId::Secure, AttributeId::Secure),
        (AttributeId::NumCpuTotal, AttributeId::NumCoreTotal),
        (AttributeId::NumCpuConfigured, AttributeId::NumCoreConfigured),
        (AttributeId::NumCpuStandby, AttributeId::NumCoreStandby),
        (AttributeId::NumCpuReserved, AttributeId::NumCoreReserved),
        (AttributeId::NumCpuDedicated, AttributeId::NumCoreDedicated),
        (AttributeId::NumCpuShared, AttributeId::NumCoreShared),
        (AttributeId::NumIflTotal, AttributeId::NumIflTotal),
        (AttributeId::NumIflDedicated, AttributeId::NumIflDedicated),
        (AttributeId::NumIflShared, AttributeId::NumIflShared),
        (AttributeId::IflDispatchType, AttributeId::IflDispatchType),
    ]
}

/// The projection table, as the projector consumes it.
fn kvm_guest_rows() -> (v: Vec<TableRow>)
    ensures
        v@ == kvm_guest_table(),
{
    let mut v: Vec<TableRow> = Vec::new();
    v.push((AttributeId::LayerExtendedName, AttributeId::LayerExtendedName));
    v.push((AttributeId::LayerUuid, AttributeId::LayerUuid));
    v.push((AttributeId::HasSecure, AttributeId::HasSecure));
    v.push((AttributeId::Secure, AttributeId::Secure));
    v.push((AttributeId::NumCpuTotal, AttributeId::NumCoreTotal));
    v.push((AttributeId::NumCpuConfigured, AttributeId::NumCoreConfigured));
    v.push((AttributeId::NumCpuStandby, AttributeId::NumCoreStandby));
    v.push((AttributeId::NumCpuReserved, AttributeId::NumCoreReserved));
    v.push((AttributeId::NumCpuDedicated, AttributeId::NumCoreDedicated));
    v.push((AttributeId::NumCpuShared, AttributeId::NumCoreShared));
    v.push((AttributeId::NumIflTotal, AttributeId::NumIflTotal));
    v.push((AttributeId::NumIflDedicated, AttributeId::NumIflDedicated));
    v.push((AttributeId::NumIflShared, AttributeId::NumIflShared));
    v.push((AttributeId::IflDispatchType, AttributeId::IflDispatchType));
    proof {
        assert(v@ =~= kvm_guest_table());
    }
    v
}

impl<'h> KvmGuest<'h> {
    /// The layer index lies within the record this view borrows.
    pub open spec fn wf(&self) -> bool {
        (self.layer as int) < self.qc@.len()
    }

    /// The recorded answers of the layer this view reads.
    pub open spec fn entries(&self) -> LayerModel {
        self.qc@[self.layer as int]
    }

    /// Queries the `LayerExtendedName` attribute of this layer.
    pub fn extended_name(&self) -> (r: Result<Option<String>, Error>)
        requires
            self.wf(),
        ensures
            string_query_matches(
                r,
                resp_of(self.entries(), attr_code(AttributeId::LayerExtendedName)),
                attr_code(AttributeId::LayerExtendedName),
            ),
    {
        self.qc.get_attribute_string(self.layer, AttributeId::LayerExtendedName)
    }

    /// Queries the `LayerUuid` attribute of this layer.
    pub fn uuid(&self) -> (r: Result<Option<String>, Error>)
        requires
            self.wf(),
        ensures
            string_query_matches(
                r,
                resp_of(self.entries(), attr_code(AttributeId::LayerUuid)),
                attr_code(AttributeId::LayerUuid),
            ),
    {
        self.qc.get_attribute_string(self.layer, AttributeId::LayerUuid)
    }

    /// Queries the `HasSecure` attribute of this layer.
    pub fn has_secure(&self) -> (r: Result<Option<i32>, Error>)
        requires
            self.wf(),
        ensures
            int_query_matches(
                r,
                resp_of(self.entries(), attr_code(AttributeId::HasSecure)),
                attr_code(AttributeId::HasSecure),
            ),
    {
        self.qc.get_attribute_int(self.layer, AttributeId::HasSecure)
    }

    /// Queries the `Secure` attribute of this layer.
    pub fn secure(&self) -> (r: Result<Option<i32>, Error>)
        requires
            self.wf(),
        ensures
            int_query_matches(
                r,
                resp_of(self.entries(), attr_code(AttributeId::Secure)),
                attr_code(AttributeId::Secure),
            ),
    {
        self.qc.get_attribute_int(self.layer, AttributeId::Secure)
    }

    /// Queries the `NumCoreTotal` attribute of this layer.
    pub fn num_cpu_total(&self) -> (r: Result<Option<i32>, Error>)
        requires
            self.wf(),
        ensures
            int_query_matches(
                r,
                resp_of(self.entries(), attr_code(AttributeId::NumCoreTotal)),
                attr_code(AttributeId::NumCoreTotal),
            ),
    {
        self.qc.get_attribute_int(self.layer, AttributeId::NumCoreTotal)
    }

    /// Queries the `NumCoreConfigured` attribute of this layer.
    pub fn num_cpu_configured(&self) -> (r: Result<Option<i32>, Error>)
        requires
            self.wf(),
        ensures
            int_query_matches(
                r,
                resp_of(self.entries(), attr_code(AttributeId::NumCoreConfigured)),
                attr_code(AttributeId::NumCoreConfigured),
            ),
    {
        self.qc.get_attribute_int(self.layer, AttributeId::NumCoreConfigured)
    }

    /// Queries the `NumCoreStandby` attribute of this layer.
    pub fn num_cpu_standby(&self) -> (r: Result<Option<i32>, Error>)
        requires
            self.wf(),
        ensures
            int_query_matches(
                r,
                resp_of(self.entries(), attr_code(AttributeId::NumCoreStandby)),
                attr_code(AttributeId::NumCoreStandby),
            ),
    {
        self.qc.get_attribute_int(self.layer, AttributeId::NumCoreStandby)
    }

    /// Queries the `NumCoreReserved` attribute of this layer.
    pub fn num_cpu_reserved(&self) -> (r: Result<Option<i32>, Error>)
        requires
            self.wf(),
        ensures
            int_query_matches(
                r,
                resp_of(self.entries(), attr_code(AttributeId::NumCoreReserved)),
                attr_code(AttributeId::NumCoreReserved),
            ),
    {
        self.qc.get_attribute_int(self.layer, AttributeId::NumCoreReserved)
    }

    /// Queries the `NumCoreDedicated` attribute of this layer.
    pub fn num_cpu_dedicated(&self) -> (r: Result<Option<i32>, Error>)
        requires
            self.wf(),
        ensures
            int_query_matches(
                r,
                resp_of(self.entries(), attr_code(AttributeId::NumCoreDedicated)),
                attr_code(AttributeId::NumCoreDedicated),
            ),
    {
        self.qc.get_attribute_int(self.layer, AttributeId::NumCoreDedicated)
    }

    /// Queries the `NumCoreShared` attribute of this layer.
    pub fn num_cpu_shared(&self) -> (r: Result<Option<i32>, Error>)
        requires
            self.wf(),
        ensures
            int_query_matches(
                r,
                resp_of(self.entries(), attr_code(AttributeId::NumCoreShared)),
                attr_code(AttributeId::NumCoreShared),
            ),
    {
        self.qc.get_attribute_int(self.layer, AttributeId::NumCoreShared)
    }

    /// Queries the `NumIflTotal` attribute of this layer.
    pub fn num_ifl_total(&self) -> (r: Result<Option<i32>, Error>)
        requires
            self.wf(),
        ensures
            int_query_matches(
                r,
                resp_of(self.entries(), attr_code(AttributeId::NumIflTotal)),
                attr_code(AttributeId::NumIflTotal),
            ),
    {
        self.qc.get_attribute_int(self.layer, AttributeId::NumIflTotal)
    }

    /// Queries the `NumIflDedicated` attribute of this layer.
    pub fn num_ifl_dedicated(&self) -> (r: Result<Option<i32>, Error>)
        requires
            self.wf(),
        ensures
            int_query_matches(
                r,
                resp_of(self.entries(), attr_code(AttributeId::NumIflDedicated)),
                attr_code(AttributeId::NumIflDedicated),
            ),
    {
        self.qc.get_attribute_int(self.layer, AttributeId::NumIflDedicated)
    }

    /// Queries the `NumIflShared` attribute of this layer.
    pub fn num_ifl_shared(&self) -> (r: Result<Option<i32>, Error>)
        requires
            self.wf(),
        ensures
            int_query_matches(
                r,
                resp_of(self.entries(), attr_code(AttributeId::NumIflShared)),
                attr_code(AttributeId::NumIflShared),
            ),
    {
        self.qc.get_attribute_int(self.layer, AttributeId::NumIflShared)
    }

    /// Queries the `IflDispatchType` attribute of this layer.
    pub fn ifl_dispatch_type(&self) -> (r: Result<Option<i32>, Error>)
        requires
            self.wf(),
        ensures
            int_query_matches(
                r,
                resp_of(self.entries(), attr_code(AttributeId::IflDispatchType)),
                attr_code(AttributeId::IflDispatchType),
            ),
    {
        self.qc.get_attribute_int(self.layer, AttributeId::IflDispatchType)
    }

    /// Appends every serialized field of this kind to `obj`, in order,
    /// with an explicit null for each absent attribute; stops at the
    /// first failing query and returns its error.
    pub fn update_json(&self, obj: &mut JsonObj) -> (r: Result<(), Error>)
        requires
            self.wf(),
        ensures
            table_json(self.entries(), kvm_guest_table()) matches Ok(pairs) ==> r is Ok
                && final(obj)@ == old(obj)@ + pairs,
            table_json(self.entries(), kvm_guest_table()) matches Err(e) ==> r == Err::<
                (),
                Error,
            >(e),
    {
        let rows = kvm_guest_rows();
        append_table_json(self.qc, self.layer, &rows, obj)
    }
}

} // verus!

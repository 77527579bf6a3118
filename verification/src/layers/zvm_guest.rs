use vstd::prelude::*;

use crate::enums::{attr_code, AttributeId};
use crate::error::Error;
use crate::json::JsonObj;
use crate::layers::{append_table_json, table_json, TableRow};
use crate::snapshot::{
    float_query_matches, int_query_matches, resp_of, string_query_matches, LayerModel,
    QueryCapacity,
};

verus! {

/// A view of the detail attributes of a z/VM guest.
///
/// Every accessor queries one attribute independently; any of them may be
/// legitimately absent even though the field always exists in the
/// serialized shape of this kind.
pub struct ZvmGuest<'h> {
    /// The capacity record this view borrows.
    pub qc: &'h QueryCapacity,
    /// The 0-based index of the layer this view reads.
    pub layer: u32,
}

/// The projection table of this kind: each serialized field with the
/// attribute it queries, in serialization order.
pub open spec fn zvm_guest_table() -> Seq<TableRow> {
    seq![
        (AttributeId::Capping, AttributeId::Capping),
        (AttributeId::CappingNum, AttributeId::CappingNum),
        (AttributeId::MobilityEnabled, AttributeId::MobilityEnabled),
        (AttributeId::HasSecure, AttributeId::HasSecure),
        (AttributeId::Secure, AttributeId::Secure),
        (AttributeId::NumCpuTotal, AttributeId::NumCpuTotal),
        (AttributeId::NumCpuConfigured, AttributeId::NumCpuConfigured),
        (AttributeId::NumCpuStandby, AttributeId::NumCpuStandby),
        (AttributeId::NumCpuReserved, AttributeId::NumCpuReserved),
        (AttributeId::NumCpuDedicated, AttributeId::NumCpuDedicated),
        (AttributeId::NumCpuShared, AttributeId::NumCpuShared),
        (AttributeId::NumCpTotal, AttributeId::NumCpTotal),
        (AttributeId::NumCpDedicated, AttributeId::NumCpDedicated),
        (AttributeId::NumCpShared, AttributeId::NumCpShared),
        (AttributeId::NumIflTotal, AttributeId::NumIflTotal),
        (AttributeId::NumIflDedicated, AttributeId::NumIflDedicated),
        (AttributeId::NumIflShared, AttributeId::NumIflShared),
        (AttributeId::NumZiipTotal, AttributeId::NumZiipTotal),
        (AttributeId::NumZiipDedicated, AttributeId::NumZiipDedicated),
        (AttributeId::NumZiipShared, AttributeId::NumZiipShared),
        (AttributeId::HasMultipleCpuTypes, AttributeId::HasMultipleCpuTypes),
        (AttributeId::CpDispatchLimithard, AttributeId::CpDispatchLimithard),
        (AttributeId::CpCappedCapacity, AttributeId::CpCappedCapacity),
        (AttributeId::IflDispatchLimithard, AttributeId::IflDispatchLimithard),
        (AttributeId::IflCappedCapacity, AttributeId::IflCappedCapacity),
        (AttributeId::ZiipDispatchLimithard, AttributeId::ZiipDispatchLimithard),
        (AttributeId::ZiipCappedCapacity, AttributeId::ZiipCappedCapacity),
        (AttributeId::CpDispatchType, AttributeId::CpDispatchType),
        (AttributeId::IflDispatchType, AttributeId::IflDispatchType),
        (AttributeId::ZiipDispatchType, AttributeId::ZiipDispatchType),
    ]
}

/// The projection table, as the projector consumes it.
fn zvm_guest_rows() -> (v: Vec<TableRow>)
    ensures
        v@ == zvm_guest_table(),
{
    let mut v: Vec<TableRow> = Vec::new();
    v.push((AttributeId::Capping, AttributeId::Capping));
    v.push((AttributeId::CappingNum, AttributeId::CappingNum));
    v.push((AttributeId::MobilityEnabled, AttributeId::MobilityEnabled));
    v.push((AttributeId::HasSecure, AttributeId::HasSecure));
    v.push((AttributeId::Secure, AttributeId::Secure));
    v.push((AttributeId::NumCpuTotal, AttributeId::NumCpuTotal));
    v.push((AttributeId::NumCpuConfigured, AttributeId::NumCpuConfigured));
    v.push((AttributeId::NumCpuStandby, AttributeId::NumCpuStandby));
    v.push((AttributeId::NumCpuReserved, AttributeId::NumCpuReserved));
    v.push((AttributeId::NumCpuDedicated, AttributeId::NumCpuDedicated));
    v.push((AttributeId::NumCpuShared, AttributeId::NumCpuShared));
    v.push((AttributeId::NumCpTotal, AttributeId::NumCpTotal));
    v.push((AttributeId::NumCpDedicated, AttributeId::NumCpDedicated));
    v.push((AttributeId::NumCpShared, AttributeId::NumCpShared));
    v.push((AttributeId::NumIflTotal, AttributeId::NumIflTotal));
    v.push((AttributeId::NumIflDedicated, AttributeId::NumIflDedicated));
    v.push((AttributeId::NumIflShared, AttributeId::NumIflShared));
    v.push((AttributeId::NumZiipTotal, AttributeId::NumZiipTotal));
    v.push((AttributeId::NumZiipDedicated, AttributeId::NumZiipDedicated));
    v.push((AttributeId::NumZiipShared, AttributeId::NumZiipShared));
    v.push((AttributeId::HasMultipleCpuTypes, AttributeId::HasMultipleCpuTypes));
    v.push((AttributeId::CpDispatchLimithard, AttributeId::CpDispatchLimithard));
    v.push((AttributeId::CpCappedCapacity, AttributeId::CpCappedCapacity));
    v.push((AttributeId::IflDispatchLimithard, AttributeId::IflDispatchLimithard));
    v.push((AttributeId::IflCappedCapacity, AttributeId::IflCappedCapacity));
    v.push((AttributeId::ZiipDispatchLimithard, AttributeId::ZiipDispatchLimithard));
    v.push((AttributeId::ZiipCappedCapacity, AttributeId::ZiipCappedCapacity));
    v.push((AttributeId::CpDispatchType, AttributeId::CpDispatchType));
    v.push((AttributeId::IflDispatchType, AttributeId::IflDispatchType));
    v.push((AttributeId::ZiipDispatchType, AttributeId::ZiipDispatchType));
    proof {
        assert(v@ =~= zvm_guest_table());
    }
    v
}

impl<'h> ZvmGuest<'h> {
    /// The layer index lies within the record this view borrows.
    pub open spec fn wf(&self) -> bool {
        (self.layer as int) < self.qc@.len()
    }

    /// The recorded answers of the layer this view reads.
    pub open spec fn entries(&self) -> LayerModel {
        self.qc@[self.layer as int]
    }

    /// Queries the `Capping` attribute of this layer.
    pub fn capping(&self) -> (r: Result<Option<String>, Error>)
        requires
            self.wf(),
        ensures
            string_query_matches(
                r,
                resp_of(self.entries(), attr_code(AttributeId::Capping)),
                attr_code(AttributeId::Capping),
            ),
    {
        self.qc.get_attribute_string(self.layer, AttributeId::Capping)
    }

    /// Queries the `CappingNum` attribute of this layer.
    pub fn capping_num(&self) -> (r: Result<Option<i32>, Error>)
        requires
            self.wf(),
        ensures
            int_query_matches(
                r,
                resp_of(self.entries(), attr_code(AttributeId::CappingNum)),
                attr_code(AttributeId::CappingNum),
            ),
    {
        self.qc.get_attribute_int(self.layer, AttributeId::CappingNum)
    }

    /// Queries the `MobilityEnabled` attribute of this layer.
    pub fn mobility_enabled(&self) -> (r: Result<Option<i32>, Error>)
        requires
            self.wf(),
        ensures
            int_query_matches(
                r,
                resp_of(self.entries(), attr_code(AttributeId::MobilityEnabled)),
                attr_code(AttributeId::MobilityEnabled),
            ),
    {
        self.qc.get_attribute_int(self.layer, AttributeId::MobilityEnabled)
    }

    /// Queries the `HasSecure` attribute of this layer.
    pub fn has_secure(&self) -> (r: Result<Option<i32>, Error>)
        requires
            self.wf(),
        ensures
            int_query_matches(
                r,
                resp_of(self.entries(), attr_code(AttributeId::HasSecure)),
                attr_code(AttributeId::HasSecure),
            ),
    {
        self.qc.get_attribute_int(self.layer, AttributeId::HasSecure)
    }

    /// Queries the `Secure` attribute of this layer.
    pub fn secure(&self) -> (r: Result<Option<i32>, Error>)
        requires
            self.wf(),
        ensures
            int_query_matches(
                r,
                resp_of(self.entries(), attr_code(AttributeId::Secure)),
                attr_code(AttributeId::Secure),
            ),
    {
        self.qc.get_attribute_int(self.layer, AttributeId::Secure)
    }

    /// Queries the `NumCpuTotal` attribute of this layer.
    pub fn num_cpu_total(&self) -> (r: Result<Option<i32>, Error>)
        requires
            self.wf(),
        ensures
            int_query_matches(
                r,
                resp_of(self.entries(), attr_code(AttributeId::NumCpuTotal)),
                attr_code(AttributeId::NumCpuTotal),
            ),
    {
        self.qc.get_attribute_int(self.layer, AttributeId::NumCpuTotal)
    }

    /// Queries the `NumCpuConfigured` attribute of this layer.
    pub fn num_cpu_configured(&self) -> (r: Result<Option<i32>, Error>)
        requires
            self.wf(),
        ensures
            int_query_matches(
                r,
                resp_of(self.entries(), attr_code(AttributeId::NumCpuConfigured)),
                attr_code(AttributeId::NumCpuConfigured),
            ),
    {
        self.qc.get_attribute_int(self.layer, AttributeId::NumCpuConfigured)
    }

    /// Queries the `NumCpuStandby` attribute of this layer.
    pub fn num_cpu_standby(&self) -> (r: Result<Option<i32>, Error>)
        requires
            self.wf(),
        ensures
            int_query_matches(
                r,
                resp_of(self.entries(), attr_code(AttributeId::NumCpuStandby)),
                attr_code(AttributeId::NumCpuStandby),
            ),
    {
        self.qc.get_attribute_int(self.layer, AttributeId::NumCpuStandby)
    }

    /// Queries the `NumCpuReserved` attribute of this layer.
    pub fn num_cpu_reserved(&self) -> (r: Result<Option<i32>, Error>)
        requires
            self.wf(),
        ensures
            int_query_matches(
                r,
                resp_of(self.entries(), attr_code(AttributeId::NumCpuReserved)),
                attr_code(AttributeId::NumCpuReserved),
            ),
    {
        self.qc.get_attribute_int(self.layer, AttributeId::NumCpuReserved)
    }

    /// Queries the `NumCpuDedicated` attribute of this layer.
    pub fn num_cpu_dedicated(&self) -> (r: Result<Option<i32>, Error>)
        requires
            self.wf(),
        ensures
            int_query_matches(
                r,
                resp_of(self.entries(), attr_code(AttributeId::NumCpuDedicated)),
                attr_code(AttributeId::NumCpuDedicated),
            ),
    {
        self.qc.get_attribute_int(self.layer, AttributeId::NumCpuDedicated)
    }

    /// Queries the `NumCpuShared` attribute of this layer.
    pub fn num_cpu_shared(&self) -> (r: Result<Option<i32>, Error>)
        requires
            self.wf(),
        ensures
            int_query_matches(
                r,
                resp_of(self.entries(), attr_code(AttributeId::NumCpuShared)),
                attr_code(AttributeId::NumCpuShared),
            ),
    {
        self.qc.get_attribute_int(self.layer, AttributeId::NumCpuShared)
    }

    /// Queries the `NumCpTotal` attribute of this layer.
    pub fn num_cp_total(&self) -> (r: Result<Option<i32>, Error>)
        requires
            self.wf(),
        ensures
            int_query_matches(
                r,
                resp_of(self.entries(), attr_code(AttributeId::NumCpTotal)),
                attr_code(AttributeId::NumCpTotal),
            ),
    {
        self.qc.get_attribute_int(self.layer, AttributeId::NumCpTotal)
    }

    /// Queries the `NumCpDedicated` attribute of this layer.
    pub fn num_cp_dedicated(&self) -> (r: Result<Option<i32>, Error>)
        requires
            self.wf(),
        ensures
            int_query_matches(
                r,
                resp_of(self.entries(), attr_code(AttributeId::NumCpDedicated)),
                attr_code(AttributeId::NumCpDedicated),
            ),
    {
        self.qc.get_attribute_int(self.layer, AttributeId::NumCpDedicated)
    }

    /// Queries the `NumCpShared` attribute of this layer.
    pub fn num_cp_shared(&self) -> (r: Result<Option<i32>, Error>)
        requires
            self.wf(),
        ensures
            int_query_matches(
                r,
                resp_of(self.entries(), attr_code(AttributeId::NumCpShared)),
                attr_code(AttributeId::NumCpShared),
            ),
    {
        self.qc.get_attribute_int(self.layer, AttributeId::NumCpShared)
    }

    /// Queries the `NumIflTotal` attribute of this layer.
    pub fn num_ifl_total(&self) -> (r: Result<Option<i32>, Error>)
        requires
            self.wf(),
        ensures
            int_query_matches(
                r,
                resp_of(self.entries(), attr_code(AttributeId::NumIflTotal)),
                attr_code(AttributeId::NumIflTotal),
            ),
    {
        self.qc.get_attribute_int(self.layer, AttributeId::NumIflTotal)
    }

    /// Queries the `NumIflDedicated` attribute of this layer.
    pub fn num_ifl_dedicated(&self) -> (r: Result<Option<i32>, Error>)
        requires
            self.wf(),
        ensures
            int_query_matches(
                r,
                resp_of(self.entries(), attr_code(AttributeId::NumIflDedicated)),
                attr_code(AttributeId::NumIflDedicated),
            ),
    {
        self.qc.get_attribute_int(self.layer, AttributeId::NumIflDedicated)
    }

    /// Queries the `NumIflShared` attribute of this layer.
    pub fn num_ifl_shared(&self) -> (r: Result<Option<i32>, Error>)
        requires
            self.wf(),
        ensures
            int_query_matches(
                r,
                resp_of(self.entries(), attr_code(AttributeId::NumIflShared)),
                attr_code(AttributeId::NumIflShared),
            ),
    {
        self.qc.get_attribute_int(self.layer, AttributeId::NumIflShared)
    }

    /// Queries the `NumZiipTotal` attribute of this layer.
    pub fn num_ziip_total(&self) -> (r: Result<Option<i32>, Error>)
        requires
            self.wf(),
        ensures
            int_query_matches(
                r,
                resp_of(self.entries(), attr_code(AttributeId::NumZiipTotal)),
                attr_code(AttributeId::NumZiipTotal),
            ),
    {
        self.qc.get_attribute_int(self.layer, AttributeId::NumZiipTotal)
    }

    /// Queries the `NumZiipDedicated` attribute of this layer.
    pub fn num_ziip_dedicated(&self) -> (r: Result<Option<i32>, Error>)
        requires
            self.wf(),
        ensures
            int_query_matches(
                r,
                resp_of(self.entries(), attr_code(AttributeId::NumZiipDedicated)),
                attr_code(AttributeId::NumZiipDedicated),
            ),
    {
        self.qc.get_attribute_int(self.layer, AttributeId::NumZiipDedicated)
    }

    /// Queries the `NumZiipShared` attribute of this layer.
    pub fn num_ziip_shared(&self) -> (r: Result<Option<i32>, Error>)
        requires
            self.wf(),
        ensures
            int_query_matches(
                r,
                resp_of(self.entries(), attr_code(AttributeId::NumZiipShared)),
                attr_code(AttributeId::NumZiipShared),
            ),
    {
        self.qc.get_attribute_int(self.layer, AttributeId::NumZiipShared)
    }

    /// Queries the `HasMultipleCpuTypes` attribute of this layer.
    pub fn has_multiple_cpu_types(&self) -> (r: Result<Option<i32>, Error>)
        requires
            self.wf(),
        ensures
            int_query_matches(
                r,
                resp_of(self.entries(), attr_code(AttributeId::HasMultipleCpuTypes)),
                attr_code(AttributeId::HasMultipleCpuTypes),
            ),
    {
        self.qc.get_attribute_int(self.layer, AttributeId::HasMultipleCpuTypes)
    }

    /// Queries the `CpDispatchLimithard` attribute of this layer.
    pub fn cp_dispatch_limithard(&self) -> (r: Result<Option<i32>, Error>)
        requires
            self.wf(),
        ensures
            int_query_matches(
                r,
                resp_of(self.entries(), attr_code(AttributeId::CpDispatchLimithard)),
                attr_code(AttributeId::CpDispatchLimithard),
            ),
    {
        self.qc.get_attribute_int(self.layer, AttributeId::CpDispatchLimithard)
    }

    /// Queries the `CpDispatchType` attribute of this layer.
    pub fn cp_dispatch_type(&self) -> (r: Result<Option<i32>, Error>)
        requires
            self.wf(),
        ensures
            int_query_matches(
                r,
                resp_of(self.entries(), attr_code(AttributeId::CpDispatchType)),
                attr_code(AttributeId::CpDispatchType),
            ),
    {
        self.qc.get_attribute_int(self.layer, AttributeId::CpDispatchType)
    }

    /// Queries the `CpCappedCapacity` attribute of this layer.
    pub fn cp_capped_capacity(&self) -> (r: Result<Option<i32>, Error>)
        requires
            self.wf(),
        ensures
            int_query_matches(
                r,
                resp_of(self.entries(), attr_code(AttributeId::CpCappedCapacity)),
                attr_code(AttributeId::CpCappedCapacity),
            ),
    {
        self.qc.get_attribute_int(self.layer, AttributeId::CpCappedCapacity)
    }

    /// Queries the `IflDispatchLimithard` attribute of this layer.
    pub fn ifl_dispatch_limithard(&self) -> (r: Result<Option<i32>, Error>)
        requires
            self.wf(),
        ensures
            int_query_matches(
                r,
                resp_of(self.entries(), attr_code(AttributeId::IflDispatchLimithard)),
                attr_code(AttributeId::IflDispatchLimithard),
            ),
    {
        self.qc.get_attribute_int(self.layer, AttributeId::IflDispatchLimithard)
    }

    /// Queries the `IflDispatchType` attribute of this layer.
    pub fn ifl_dispatch_type(&self) -> (r: Result<Option<i32>, Error>)
        requires
            self.wf(),
        ensures
            int_query_matches(
                r,
                resp_of(self.entries(), attr_code(AttributeId::IflDispatchType)),
                attr_code(AttributeId::IflDispatchType),
            ),
    {
        self.qc.get_attribute_int(self.layer, AttributeId::IflDispatchType)
    }

    /// Queries the `IflCappedCapacity` attribute of this layer.
    pub fn ifl_capped_capacity(&self) -> (r: Result<Option<i32>, Error>)
        requires
            self.wf(),
        ensures
            int_query_matches(
                r,
                resp_of(self.entries(), attr_code(AttributeId::IflCappedCapacity)),
                attr_code(AttributeId::IflCappedCapacity),
            ),
    {
        self.qc.get_attribute_int(self.layer, AttributeId::IflCappedCapacity)
    }

    /// Queries the `ZiipDispatchLimithard` attribute of this layer.
    pub fn ziip_dispatch_limithard(&self) -> (r: Result<Option<i32>, Error>)
        requires
            self.wf(),
        ensures
            int_query_matches(
                r,
                resp_of(self.entries(), attr_code(AttributeId::ZiipDispatchLimithard)),
                attr_code(AttributeId::ZiipDispatchLimithard),
            ),
    {
        self.qc.get_attribute_int(self.layer, AttributeId::ZiipDispatchLimithard)
    }

    /// Queries the `ZiipDispatchType` attribute of this layer.
    pub fn ziip_dispatch_type(&self) -> (r: Result<Option<i32>, Error>)
        requires
            self.wf(),
        ensures
            int_query_matches(
                r,
                resp_of(self.entries(), attr_code(AttributeId::ZiipDispatchType)),
                attr_code(AttributeId::ZiipDispatchType),
            ),
    {
        self.qc.get_attribute_int(self.layer, AttributeId::ZiipDispatchType)
    }

    /// Queries the `ZiipCappedCapacity` attribute of this layer.
    pub fn ziip_capped_capacity(&self) -> (r: Result<Option<i32>, Error>)
        requires
            self.wf(),
        ensures
            int_query_matches(
                r,
                resp_of(self.entries(), attr_code(AttributeId::ZiipCappedCapacity)),
                attr_code(AttributeId::ZiipCappedCapacity),
            ),
    {
        self.qc.get_attribute_int(self.layer, AttributeId::ZiipCappedCapacity)
    }

    /// Appends every serialized field of this kind to `obj`, in order,
    /// with an explicit null for each absent attribute; stops at the
    /// first failing query and returns its error.
    pub fn update_json(&self, obj: &mut JsonObj) -> (r: Result<(), Error>)
        requires
            self.wf(),
        ensures
            table_json(self.entries(), zvm_guest_table()) matches Ok(pairs) ==> r is Ok
                && final(obj)@ == old(obj)@ + pairs,
            table_json(self.entries(), zvm_guest_table()) matches Err(e) ==> r == Err::<
                (),
                Error,
            >(e),
    {
        let rows = zvm_guest_rows();
        append_table_json(self.qc, self.layer, &rows, obj)
    }
}

} // verus!

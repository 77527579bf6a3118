use vstd::prelude::*;

use crate::enums::{attr_code, AttributeId};
use crate::error::Error;
use crate::json::JsonObj;
use crate::layers::{append_table_json, table_json, TableRow};
use crate::snapshot::{
    float_query_matches, int_query_matches, resp_of, string_query_matches, LayerModel,
    QueryCapacity,
};

verus! {

/// A view of the detail attributes of a logical partition (LPAR).
///
/// Every accessor queries one attribute independently; any of them may be
/// legitimately absent even though the field always exists in the
/// serialized shape of this kind.
pub struct Lpar<'h> {
    /// The capacity record this view borrows.
    pub qc: &'h QueryCapacity,
    /// The 0-based index of the layer this view reads.
    pub layer: u32,
}

/// The projection table of this kind: each serialized field with the
/// attribute it queries, in serialization order.
pub open spec fn lpar_table() -> Seq<TableRow> {
    seq![
        (AttributeId::LayerExtendedName, AttributeId::LayerExtendedName),
        (AttributeId::LayerUuid, AttributeId::LayerUuid),
        (AttributeId::Adjustment, AttributeId::Adjustment),
        (AttributeId::PartitionNumber, AttributeId::PartitionNumber),
        (AttributeId::PartitionChar, AttributeId::PartitionChar),
        (AttributeId::PartitionCharNum, AttributeId::PartitionCharNum),
        (AttributeId::HasSecure, AttributeId::HasSecure),
        (AttributeId::Secure, AttributeId::Secure),
        (AttributeId::NumCoreTotal, AttributeId::NumCoreTotal),
        (AttributeId::NumCoreConfigured, AttributeId::NumCoreConfigured),
        (AttributeId::NumCoreStandby, AttributeId::NumCoreStandby),
        (AttributeId::NumCoreReserved, AttributeId::NumCoreReserved),
        (AttributeId::NumCoreDedicated, AttributeId::NumCoreDedicated),
        (AttributeId::NumCoreShared, AttributeId::NumCoreShared),
        (AttributeId::NumCpTotal, AttributeId::NumCpTotal),
        (AttributeId::NumCpDedicated, AttributeId::NumCpDedicated),
        (AttributeId::NumCpShared, AttributeId::NumCpShared),
        (AttributeId::NumIflTotal, AttributeId::NumIflTotal),
        (AttributeId::NumIflDedicated, AttributeId::NumIflDedicated),
        (AttributeId::NumIflShared, AttributeId::NumIflShared),
        (AttributeId::NumZiipTotal, AttributeId::NumZiipTotal),
        (AttributeId::NumZiipDedicated, AttributeId::NumZiipDedicated),
        (AttributeId::NumZiipShared, AttributeId::NumZiipShared),
        (AttributeId::NumCpThreads, AttributeId::NumCpThreads),
        (AttributeId::NumIflThreads, AttributeId::NumIflThreads),
        (AttributeId::NumZiipThreads, AttributeId::NumZiipThreads),
        (AttributeId::CpAbsoluteCapping, AttributeId::CpAbsoluteCapping),
        (AttributeId::IflAbsoluteCapping, AttributeId::IflAbsoluteCapping),
        (AttributeId::ZiipAbsoluteCapping, AttributeId::ZiipAbsoluteCapping),
        (AttributeId::CpWeightCapping, AttributeId::CpWeightCapping),
        (AttributeId::IflWeightCapping, AttributeId::IflWeightCapping),
        (AttributeId::ZiipWeightCapping, AttributeId::ZiipWeightCapping),
    ]
}

/// The projection table, as the projector consumes it.
fn lpar_rows() -> (v: Vec<TableRow>)
    ensures
        v@ == lpar_table(),
{
    let mut v: Vec<TableRow> = Vec::new();
    v.push((AttributeId::LayerExtendedName, AttributeId::LayerExtendedName));
    v.push((AttributeId::LayerUuid, AttributeId::LayerUuid));
    v.push((AttributeId::Adjustment, AttributeId::Adjustment));
    v.push((AttributeId::PartitionNumber, AttributeId::PartitionNumber));
    v.push((AttributeId::PartitionChar, AttributeId::PartitionChar));
    v.push((AttributeId::PartitionCharNum, AttributeId::PartitionCharNum));
    v.push((AttributeId::HasSecure, AttributeId::HasSecure));
    v.push((AttributeId::Secure, AttributeId::Secure));
    v.push((AttributeId::NumCoreTotal, AttributeId::NumCoreTotal));
    v.push((AttributeId::NumCoreConfigured, AttributeId::NumCoreConfigured));
    v.push((AttributeId::NumCoreStandby, AttributeId::NumCoreStandby));
    v.push((AttributeId::NumCoreReserved, AttributeId::NumCoreReserved));
    v.push((AttributeId::NumCoreDedicated, AttributeId::NumCoreDedicated));
    v.push((AttributeId::NumCoreShared, AttributeId::NumCoreShared));
    v.push((AttributeId::NumCpTotal, AttributeId::NumCpTotal));
    v.push((AttributeId::NumCpDedicated, AttributeId::NumCpDedicated));
    v.push((AttributeId::NumCpShared, AttributeId::NumCpShared));
    v.push((AttributeId::NumIflTotal, AttributeId::NumIflTotal));
    v.push((AttributeId::NumIflDedicated, AttributeId::NumIflDedicated));
    v.push((AttributeId::NumIflShared, AttributeId::NumIflShared));
    v.push((AttributeId::NumZiipTotal, AttributeId::NumZiipTotal));
    v.push((AttributeId::NumZiipDedicated, AttributeId::NumZiipDedicated));
    v.push((AttributeId::NumZiipShared, AttributeId::NumZiipShared));
    v.push((AttributeId::NumCpThreads, AttributeId::NumCpThreads));
    v.push((AttributeId::NumIflThreads, AttributeId::NumIflThreads));
    v.push((AttributeId::NumZiipThreads, AttributeId::NumZiipThreads));
    v.push((AttributeId::CpAbsoluteCapping, AttributeId::CpAbsoluteCapping));
    v.push((AttributeId::IflAbsoluteCapping, AttributeId::IflAbsoluteCapping));
    v.push((AttributeId::ZiipAbsoluteCapping, AttributeId::ZiipAbsoluteCapping));
    v.push((AttributeId::CpWeightCapping, AttributeId::CpWeightCapping));
    v.push((AttributeId::IflWeightCapping, AttributeId::IflWeightCapping));
    v.push((AttributeId::ZiipWeightCapping, AttributeId::ZiipWeightCapping));
    proof {
        assert(v@ =~= lpar_table());
    }
    v
}

impl<'h> Lpar<'h> {
    /// The layer index lies within the record this view borrows.
    pub open spec fn wf(&self) -> bool {
        (self.layer as int) < self.qc@.len()
    }

    /// The recorded answers of the layer this view reads.
    pub open spec fn entries(&self) -> LayerModel {
        self.qc@[self.layer as int]
    }

    /// Queries the `LayerExtendedName` attribute of this layer.
    pub fn extended_name(&self) -> (r: Result<Option<String>, Error>)
        requires
            self.wf(),
        ensures
            string_query_matches(
                r,
                resp_of(self.entries(), attr_code(AttributeId::LayerExtendedName)),
                attr_code(AttributeId::LayerExtendedName),
            ),
    {
        self.qc.get_attribute_string(self.layer, AttributeId::LayerExtendedName)
    }

    /// Queries the `LayerUuid` attribute of this layer.
    pub fn uuid(&self) -> (r: Result<Option<String>, Error>)
        requires
            self.wf(),
        ensures
            string_query_matches(
                r,
                resp_of(self.entries(), attr_code(AttributeId::LayerUuid)),
                attr_code(AttributeId::LayerUuid),
            ),
    {
        self.qc.get_attribute_string(self.layer, AttributeId::LayerUuid)
    }

    /// Queries the `PartitionNumber` attribute of this layer.
    pub fn partition_number(&self) -> (r: Result<Option<i32>, Error>)
        requires
            self.wf(),
        ensures
            int_query_matches(
                r,
                resp_of(self.entries(), attr_code(AttributeId::PartitionNumber)),
                attr_code(AttributeId::PartitionNumber),
            ),
    {
        self.qc.get_attribute_int(self.layer, AttributeId::PartitionNumber)
    }

    /// Queries the `PartitionChar` attribute of this layer.
    pub fn partition_char(&self) -> (r: Result<Option<String>, Error>)
        requires
            self.wf(),
        ensures
            string_query_matches(
                r,
                resp_of(self.entries(), attr_code(AttributeId::PartitionChar)),
                attr_code(AttributeId::PartitionChar),
            ),
    {
        self.qc.get_attribute_string(self.layer, AttributeId::PartitionChar)
    }

    /// Queries the `PartitionCharNum` attribute of this layer.
    pub fn partition_char_num(&self) -> (r: Result<Option<i32>, Error>)
        requires
            self.wf(),
        ensures
            int_query_matches(
                r,
                resp_of(self.entries(), attr_code(AttributeId::PartitionCharNum)),
                attr_code(AttributeId::PartitionCharNum),
            ),
    {
        self.qc.get_attribute_int(self.layer, AttributeId::PartitionCharNum)
    }

    /// Queries the `Adjustment` attribute of this layer.
    pub fn adjustment(&self) -> (r: Result<Option<i32>, Error>)
        requires
            self.wf(),
        ensures
            int_query_matches(
                r,
                resp_of(self.entries(), attr_code(AttributeId::Adjustment)),
                attr_code(AttributeId::Adjustment),
            ),
    {
        self.qc.get_attribute_int(self.layer, AttributeId::Adjustment)
    }

    /// Queries the `HasSecure` attribute of this layer.
    pub fn has_secure(&self) -> (r: Result<Option<i32>, Error>)
        requires
            self.wf(),
        ensures
            int_query_matches(
                r,
                resp_of(self.entries(), attr_code(AttributeId::HasSecure)),
                attr_code(AttributeId::HasSecure),
            ),
    {
        self.qc.get_attribute_int(self.layer, AttributeId::HasSecure)
    }

    /// Queries the `Secure` attribute of this layer.
    pub fn secure(&self) -> (r: Result<Option<i32>, Error>)
        requires
            self.wf(),
        ensures
            int_query_matches(
                r,
                resp_of(self.entries(), attr_code(AttributeId::Secure)),
                attr_code(AttributeId::Secure),
            ),
    {
        self.qc.get_attribute_int(self.layer, AttributeId::Secure)
    }

    /// Queries the `NumCoreTotal` attribute of this layer.
    pub fn num_core_total(&self) -> (r: Result<Option<i32>, Error>)
        requires
            self.wf(),
        ensures
            int_query_matches(
                r,
                resp_of(self.entries(), attr_code(AttributeId::NumCoreTotal)),
                attr_code(AttributeId::NumCoreTotal),
            ),
    {
        self.qc.get_attribute_int(self.layer, AttributeId::NumCoreTotal)
    }

    /// Queries the `NumCoreConfigured` attribute of this layer.
    pub fn num_core_configured(&self) -> (r: Result<Option<i32>, Error>)
        requires
            self.wf(),
        ensures
            int_query_matches(
                r,
                resp_of(self.entries(), attr_code(AttributeId::NumCoreConfigured)),
                attr_code(AttributeId::NumCoreConfigured),
            ),
    {
        self.qc.get_attribute_int(self.layer, AttributeId::NumCoreConfigured)
    }

    /// Queries the `NumCoreStandby` attribute of this layer.
    pub fn num_core_standby(&self) -> (r: Result<Option<i32>, Error>)
        requires
            self.wf(),
        ensures
            int_query_matches(
                r,
                resp_of(self.entries(), attr_code(AttributeId::NumCoreStandby)),
                attr_code(AttributeId::NumCoreStandby),
            ),
    {
        self.qc.get_attribute_int(self.layer, AttributeId::NumCoreStandby)
    }

    /// Queries the `NumCoreReserved` attribute of this layer.
    pub fn num_core_reserved(&self) -> (r: Result<Option<i32>, Error>)
        requires
            self.wf(),
        ensures
            int_query_matches(
                r,
                resp_of(self.entries(), attr_code(AttributeId::NumCoreReserved)),
                attr_code(AttributeId::NumCoreReserved),
            ),
    {
        self.qc.get_attribute_int(self.layer, AttributeId::NumCoreReserved)
    }

    /// Queries the `NumCoreDedicated` attribute of this layer.
    pub fn num_core_dedicated(&self) -> (r: Result<Option<i32>, Error>)
        requires
            self.wf(),
        ensures
            int_query_matches(
                r,
                resp_of(self.entries(), attr_code(AttributeId::NumCoreDedicated)),
                attr_code(AttributeId::NumCoreDedicated),
            ),
    {
        self.qc.get_attribute_int(self.layer, AttributeId::NumCoreDedicated)
    }

    /// Queries the `NumCoreShared` attribute of this layer.
    pub fn num_core_shared(&self) -> (r: Result<Option<i32>, Error>)
        requires
            self.wf(),
        ensures
            int_query_matches(
                r,
                resp_of(self.entries(), attr_code(AttributeId::NumCoreShared)),
                attr_code(AttributeId::NumCoreShared),
            ),
    {
        self.qc.get_attribute_int(self.layer, AttributeId::NumCoreShared)
    }

    /// Queries the `NumCpTotal` attribute of this layer.
    pub fn num_cp_total(&self) -> (r: Result<Option<i32>, Error>)
        requires
            self.wf(),
        ensures
            int_query_matches(
                r,
                resp_of(self.entries(), attr_code(AttributeId::NumCpTotal)),
                attr_code(AttributeId::NumCpTotal),
            ),
    {
        self.qc.get_attribute_int(self.layer, AttributeId::NumCpTotal)
    }

    /// Queries the `NumCpDedicated` attribute of this layer.
    pub fn num_cp_dedicated(&self) -> (r: Result<Option<i32>, Error>)
        requires
            self.wf(),
        ensures
            int_query_matches(
                r,
                resp_of(self.entries(), attr_code(AttributeId::NumCpDedicated)),
                attr_code(AttributeId::NumCpDedicated),
            ),
    {
        self.qc.get_attribute_int(self.layer, AttributeId::NumCpDedicated)
    }

    /// Queries the `NumCpShared` attribute of this layer.
    pub fn num_cp_shared(&self) -> (r: Result<Option<i32>, Error>)
        requires
            self.wf(),
        ensures
            int_query_matches(
                r,
                resp_of(self.entries(), attr_code(AttributeId::NumCpShared)),
                attr_code(AttributeId::NumCpShared),
            ),
    {
        self.qc.get_attribute_int(self.layer, AttributeId::NumCpShared)
    }

    /// Queries the `NumIflTotal` attribute of this layer.
    pub fn num_ifl_total(&self) -> (r: Result<Option<i32>, Error>)
        requires
            self.wf(),
        ensures
            int_query_matches(
                r,
                resp_of(self.entries(), attr_code(AttributeId::NumIflTotal)),
                attr_code(AttributeId::NumIflTotal),
            ),
    {
        self.qc.get_attribute_int(self.layer, AttributeId::NumIflTotal)
    }

    /// Queries the `NumIflDedicated` attribute of this layer.
    pub fn num_ifl_dedicated(&self) -> (r: Result<Option<i32>, Error>)
        requires
            self.wf(),
        ensures
            int_query_matches(
                r,
                resp_of(self.entries(), attr_code(AttributeId::NumIflDedicated)),
                attr_code(AttributeId::NumIflDedicated),
            ),
    {
        self.qc.get_attribute_int(self.layer, AttributeId::NumIflDedicated)
    }

    /// Queries the `NumIflShared` attribute of this layer.
    pub fn num_ifl_shared(&self) -> (r: Result<Option<i32>, Error>)
        requires
            self.wf(),
        ensures
            int_query_matches(
                r,
                resp_of(self.entries(), attr_code(AttributeId::NumIflShared)),
                attr_code(AttributeId::NumIflShared),
            ),
    {
        self.qc.get_attribute_int(self.layer, AttributeId::NumIflShared)
    }

    /// Queries the `NumZiipTotal` attribute of this layer.
    pub fn num_ziip_total(&self) -> (r: Result<Option<i32>, Error>)
        requires
            self.wf(),
        ensures
            int_query_matches(
                r,
                resp_of(self.entries(), attr_code(AttributeId::NumZiipTotal)),
                attr_code(AttributeId::NumZiipTotal),
            ),
    {
        self.qc.get_attribute_int(self.layer, AttributeId::NumZiipTotal)
    }

    /// Queries the `NumZiipDedicated` attribute of this layer.
    pub fn num_ziip_dedicated(&self) -> (r: Result<Option<i32>, Error>)
        requires
            self.wf(),
        ensures
            int_query_matches(
                r,
                resp_of(self.entries(), attr_code(AttributeId::NumZiipDedicated)),
                attr_code(AttributeId::NumZiipDedicated),
            ),
    {
        self.qc.get_attribute_int(self.layer, AttributeId::NumZiipDedicated)
    }

    /// Queries the `NumZiipShared` attribute of this layer.
    pub fn num_ziip_shared(&self) -> (r: Result<Option<i32>, Error>)
        requires
            self.wf(),
        ensures
            int_query_matches(
                r,
                resp_of(self.entries(), attr_code(AttributeId::NumZiipShared)),
                attr_code(AttributeId::NumZiipShared),
            ),
    {
        self.qc.get_attribute_int(self.layer, AttributeId::NumZiipShared)
    }

    /// Queries the `NumCpThreads` attribute of this layer.
    pub fn num_cp_threads(&self) -> (r: Result<Option<i32>, Error>)
        requires
            self.wf(),
        ensures
            int_query_matches(
                r,
                resp_of(self.entries(), attr_code(AttributeId::NumCpThreads)),
                attr_code(AttributeId::NumCpThreads),
            ),
    {
        self.qc.get_attribute_int(self.layer, AttributeId::NumCpThreads)
    }

    /// Queries the `NumIflThreads` attribute of this layer.
    pub fn num_ifl_threads(&self) -> (r: Result<Option<i32>, Error>)
        requires
            self.wf(),
        ensures
            int_query_matches(
                r,
                resp_of(self.entries(), attr_code(AttributeId::NumIflThreads)),
                attr_code(AttributeId::NumIflThreads),
            ),
    {
        self.qc.get_attribute_int(self.layer, AttributeId::NumIflThreads)
    }

    /// Queries the `NumZiipThreads` attribute of this layer.
    pub fn num_ziip_threads(&self) -> (r: Result<Option<i32>, Error>)
        requires
            self.wf(),
        ensures
            int_query_matches(
                r,
                resp_of(self.entries(), attr_code(AttributeId::NumZiipThreads)),
                attr_code(AttributeId::NumZiipThreads),
            ),
    {
        self.qc.get_attribute_int(self.layer, AttributeId::NumZiipThreads)
    }

    /// Queries the `CpAbsoluteCapping` attribute of this layer.
    pub fn cp_absolute_capping(&self) -> (r: Result<Option<i32>, Error>)
        requires
            self.wf(),
        ensures
            int_query_matches(
                r,
                resp_of(self.entries(), attr_code(AttributeId::CpAbsoluteCapping)),
                attr_code(AttributeId::CpAbsoluteCapping),
            ),
    {
        self.qc.get_attribute_int(self.layer, AttributeId::CpAbsoluteCapping)
    }

    /// Queries the `CpWeightCapping` attribute of this layer.
    pub fn cp_weight_capping(&self) -> (r: Result<Option<i32>, Error>)
        requires
            self.wf(),
        ensures
            int_query_matches(
                r,
                resp_of(self.entries(), attr_code(AttributeId::CpWeightCapping)),
                attr_code(AttributeId::CpWeightCapping),
            ),
    {
        self.qc.get_attribute_int(self.layer, AttributeId::CpWeightCapping)
    }

    /// Queries the `IflAbsoluteCapping` attribute of this layer.
    pub fn ifl_absolute_capping(&self) -> (r: Result<Option<i32>, Error>)
        requires
            self.wf(),
        ensures
            int_query_matches(
                r,
                resp_of(self.entries(), attr_code(AttributeId::IflAbsoluteCapping)),
                attr_code(AttributeId::IflAbsoluteCapping),
            ),
    {
        self.qc.get_attribute_int(self.layer, AttributeId::IflAbsoluteCapping)
    }

    /// Queries the `IflWeightCapping` attribute of this layer.
    pub fn ifl_weight_capping(&self) -> (r: Result<Option<i32>, Error>)
        requires
            self.wf(),
        ensures
            int_query_matches(
                r,
                resp_of(self.entries(), attr_code(AttributeId::IflWeightCapping)),
                attr_code(AttributeId::IflWeightCapping),
            ),
    {
        self.qc.get_attribute_int(self.layer, AttributeId::IflWeightCapping)
    }

    /// Queries the `ZiipAbsoluteCapping` attribute of this layer.
    pub fn ziip_absolute_capping(&self) -> (r: Result<Option<i32>, Error>)
        requires
            self.wf(),
        ensures
            int_query_matches(
                r,
                resp_of(self.entries(), attr_code(AttributeId::ZiipAbsoluteCapping)),
                attr_code(AttributeId::ZiipAbsoluteCapping),
            ),
    {
        self.qc.get_attribute_int(self.layer, AttributeId::ZiipAbsoluteCapping)
    }

    /// Queries the `ZiipWeightCapping` attribute of this layer.
    pub fn ziip_weight_capping(&self) -> (r: Result<Option<i32>, Error>)
        requires
            self.wf(),
        ensures
            int_query_matches(
                r,
                resp_of(self.entries(), attr_code(AttributeId::ZiipWeightCapping)),
                attr_code(AttributeId::ZiipWeightCapping),
            ),
    {
        self.qc.get_attribute_int(self.layer, AttributeId::ZiipWeightCapping)
    }

    /// Appends every serialized field of this kind to `obj`, in order,
    /// with an explicit null for each absent attribute; stops at the
    /// first failing query and returns its error.
    pub fn update_json(&self, obj: &mut JsonObj) -> (r: Result<(), Error>)
        requires
            self.wf(),
        ensures
            table_json(self.entries(), lpar_table()) matches Ok(pairs) ==> r is Ok
                && final(obj)@ == old(obj)@ + pairs,
            table_json(self.entries(), lpar_table()) matches Err(e) ==> r == Err::<
                (),
                Error,
            >(e),
    {
        let rows = lpar_rows();
        append_table_json(self.qc, self.layer, &rows, obj)
    }
}

} // verus!

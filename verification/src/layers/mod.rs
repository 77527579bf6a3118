use vstd::prelude::*;

mod cec;
mod kvm_guest;
mod kvm_hypervisor;
mod lpar;
mod zvm_guest;
mod zvm_hypervisor;

pub use cec::CEC;
pub use cec::cec_table;
pub use kvm_guest::KvmGuest;
pub use kvm_guest::kvm_guest_table;
pub use kvm_hypervisor::KvmHypervisor;
pub use kvm_hypervisor::kvm_hypervisor_table;
pub use lpar::Lpar;
pub use lpar::lpar_table;
pub use zvm_guest::ZvmGuest;
pub use zvm_guest::zvm_guest_table;
pub use zvm_hypervisor::ZvmHypervisor;
pub use zvm_hypervisor::zvm_hypervisor_table;

use crate::enums::{attr_code, attr_display, attr_kind, AttributeId, LayerType, ValueKind};
use crate::error::{Error, ErrorKind};
use crate::json::{JsonObj, JsonVal, JsonValModel, ObjModel};
use crate::snapshot::{resp_of, AttrResponseModel, AttrValueModel, LayerModel, QueryCapacity};

verus! {

/// Detail accessors for an LPAR capping group; not implemented yet.
pub struct LparGroup;

/// Detail accessors for a z/VM CPU pool; not implemented yet.
pub struct ZvmCpuPool;

/// Detail accessors for a z/VM resource pool; not implemented yet.
pub struct ZvmResourcePool;

/// Detail accessors for a z/OS hypervisor; not implemented yet.
pub struct ZosHypervisor;

/// Detail accessors for a z/OS tenant resource group; not implemented yet.
pub struct ZosTenantResourceGroup;

/// Detail accessors for a z/OS zCX server; not implemented yet.
pub struct ZosZcxServer;

/// The kind-specific accessor set of one layer: a closed tagged union over
/// the layer kinds. Each implemented variant exposes only the attributes
/// meaningful for its kind; the remaining variants are declared but cannot be
/// produced yet, and dispatching to them reports an unimplemented kind.
pub enum LayerDetails<'h> {
    /// The physical machine.
    CEC(CEC<'h>),
    /// LPAR capping group (no accessor set yet).
    LparGroup(LparGroup),
    /// Logical partition.
    Lpar(Lpar<'h>),
    /// z/VM hypervisor.
    ZvmHypervisor(ZvmHypervisor<'h>),
    /// z/VM CPU pool (no accessor set yet).
    ZvmCpuPool(ZvmCpuPool),
    /// z/VM resource pool (no accessor set yet).
    ZvmResourcePool(ZvmResourcePool),
    /// z/VM guest.
    ZvmGuest(ZvmGuest<'h>),
    /// KVM hypervisor.
    KvmHypervisor(KvmHypervisor<'h>),
    /// KVM guest.
    KvmGuest(KvmGuest<'h>),
    /// z/OS hypervisor (no accessor set yet).
    ZosHypervisor(ZosHypervisor),
    /// z/OS tenant resource group (no accessor set yet).
    ZosTenantResourceGroup(ZosTenantResourceGroup),
    /// z/OS zCX server (no accessor set yet).
    ZosZcxServer(ZosZcxServer),
}

/// One row of a projection table: the attribute whose display name keys the
/// field, and the attribute actually queried for the value. The two coincide
/// for every row but the handful where a kind serializes a queried attribute
/// under another field name.
pub type TableRow = (AttributeId, AttributeId);

/// The projected form of a present attribute value.
pub open spec fn jval_of(v: AttrValueModel) -> JsonValModel {
    match v {
        AttrValueModel::Str(s) => JsonValModel::Str(s),
        AttrValueModel::Int(x) => JsonValModel::Int(x as i64),
        AttrValueModel::Float(b) => JsonValModel::Float(b),
    }
}

/// What projecting one attribute yields: explicit null when the attribute is
/// absent, its value when present with the declared kind, the provider's
/// error for a failed fetch, and a catalog violation for a present value of
/// the wrong kind.
pub open spec fn attr_json_result(entries: LayerModel, id: AttributeId) -> Result<
    JsonValModel,
    Error,
> {
    match resp_of(entries, attr_code(id)) {
        AttrResponseModel::Fail(c) => Err(Error { kind: ErrorKind::Query { code: c } }),
        AttrResponseModel::Absent => Ok(JsonValModel::Null),
        AttrResponseModel::Present(v) => if v.kind() == attr_kind(id) {
            Ok(jval_of(v))
        } else {
            Err(Error { kind: ErrorKind::CatalogViolation { raw: attr_code(id) as i64 } })
        },
    }
}

/// Whether an executable projection result realizes its model: the same error,
/// or a value whose view is the model's value.
pub open spec fn jv_result_matches(r: Result<JsonVal, Error>, q: Result<JsonValModel, Error>) -> bool {
    match q {
        Ok(m) => r matches Ok(v) && v@ == m,
        Err(e) => r == Err::<JsonVal, Error>(e),
    }
}

/// The projection of a whole attribute table against one layer: one field per
/// row, in table order, each keyed by the row's display name; or the error of
/// the first row whose query fails.
pub open spec fn table_json(entries: LayerModel, t: Seq<TableRow>) -> Result<ObjModel, Error>
    decreases t.len(),
{
    if t.len() == 0 {
        Ok(Seq::<(Seq<char>, JsonValModel)>::empty())
    } else {
        match table_json(entries, t.drop_last()) {
            Err(e) => Err(e),
            Ok(front) => match attr_json_result(entries, t.last().1) {
                Err(e) => Err(e),
                Ok(v) => Ok(front.push((attr_display(t.last().0), v))),
            },
        }
    }
}

/// Two attributes that share a numeric identifier — which the catalog allows
/// only for a deprecated alias and its replacement — declare the same value
/// kind and project to the identical field value against every layer.
pub proof fn lemma_alias_same_projection(entries: LayerModel, a: AttributeId, b: AttributeId)
    requires
        attr_code(a) == attr_code(b),
    ensures
        attr_kind(a) == attr_kind(b),
        attr_json_result(entries, a) == attr_json_result(entries, b),
{
    crate::enums::lemma_attr_code_collision_is_alias(a, b);
    crate::enums::lemma_canonical_keeps_code(a);
    crate::enums::lemma_canonical_keeps_code(b);
}

/// A failing row poisons the whole table projection: once a prefix projects
/// cleanly and the next row fails, the full table reports that row's error.
proof fn lemma_table_json_err(entries: LayerModel, t: Seq<TableRow>, k: int, e: Error)
    requires
        0 <= k < t.len(),
        table_json(entries, t.take(k)) is Ok,
        attr_json_result(entries, t[k].1) == Err::<JsonValModel, Error>(e),
    ensures
        table_json(entries, t) == Err::<ObjModel, Error>(e),
    decreases t.len(),
{
    if t.len() == k + 1 {
        assert(t.drop_last() =~= t.take(k));
    } else {
        assert(t.drop_last().take(k) =~= t.take(k));
        lemma_table_json_err(entries, t.drop_last(), k, e);
    }
}

/// Projects one attribute of one layer, through the getter matching its
/// declared kind.
pub fn query_attr_json(qc: &QueryCapacity, layer: u32, id: AttributeId) -> (r: Result<
    JsonVal,
    Error,
>)
    requires
        (layer as int) < qc@.len(),
    ensures
        jv_result_matches(r, attr_json_result(qc@[layer as int], id)),
{
    match id.kind() {
        ValueKind::Str => match qc.get_attribute_string(layer, id) {
            Ok(Some(s)) => Ok(JsonVal::Str(s)),
            Ok(None) => Ok(JsonVal::Null),
            Err(e) => Err(e),
        },
        ValueKind::Int => match qc.get_attribute_int(layer, id) {
            Ok(Some(v)) => Ok(JsonVal::Int(v as i64)),
            Ok(None) => Ok(JsonVal::Null),
            Err(e) => Err(e),
        },
        ValueKind::Float => match qc.get_attribute_float(layer, id) {
            Ok(Some(b)) => Ok(JsonVal::Float(b)),
            Ok(None) => Ok(JsonVal::Null),
            Err(e) => Err(e),
        },
    }
}

/// Appends the projection of every table row to `obj`, in order; stops at the
/// first failing query and returns its error, exactly as the table model says.
pub fn append_table_json(
    qc: &QueryCapacity,
    layer: u32,
    table: &Vec<TableRow>,
    obj: &mut JsonObj,
) -> (r: Result<(), Error>)
    requires
        (layer as int) < qc@.len(),
    ensures
        table_json(qc@[layer as int], table@) matches Ok(pairs) ==> r is Ok && final(obj)@ == old(
            obj,
        )@ + pairs,
        table_json(qc@[layer as int], table@) matches Err(e) ==> r == Err::<(), Error>(e),
{
    let ghost entries = qc@[layer as int];
    let n = table.len();
    let mut k: usize = 0;
    proof {
        assert(table@.take(0) =~= Seq::<TableRow>::empty());
        assert(old(obj)@ + Seq::<(Seq<char>, JsonValModel)>::empty() =~= old(obj)@);
    }
    while k < n
        invariant
            k <= n,
            n == table@.len(),
            (layer as int) < qc@.len(),
            entries == qc@[layer as int],
            (table_json(entries, table@.take(k as int)) matches Ok(pairs) && obj@ == old(obj)@
                + pairs),
        decreases n - k,
    {
        let row = table[k];
        match query_attr_json(qc, layer, row.1) {
            Ok(v) => {
                let ghost prev = obj@;
                obj.push(row.0.display_name(), v);
                proof {
                    assert(table@.take(k + 1).drop_last() =~= table@.take(k as int));
                    assert(table@.take(k + 1).last() == table@[k as int]);
                    let front = table_json(entries, table@.take(k as int))->Ok_0;
                    assert(obj@ =~= old(obj)@ + front.push(
                        (attr_display(table@[k as int].0), v@),
                    ));
                }
            },
            Err(e) => {
                proof {
                    lemma_table_json_err(entries, table@, k as int, e);
                }
                return Err(e);
            },
        }
        k = k + 1;
    }
    proof {
        assert(table@.take(n as int) =~= table@);
    }
    Ok(())
}


/// The unique outcome of one integer attribute query against a layer.
pub open spec fn int_attr_result(entries: LayerModel, id: AttributeId) -> Result<
    Option<i32>,
    Error,
> {
    match resp_of(entries, attr_code(id)) {
        AttrResponseModel::Fail(c) => Err(Error { kind: ErrorKind::Query { code: c } }),
        AttrResponseModel::Absent => Ok(None),
        AttrResponseModel::Present(v) => match v {
            AttrValueModel::Int(x) => Ok(Some(x)),
            _ => Err(Error { kind: ErrorKind::CatalogViolation { raw: attr_code(id) as i64 } }),
        },
    }
}

/// The sum of two optional components, known only when both are.
pub open spec fn sum_when_both(a: Option<i32>, b: Option<i32>) -> Option<i64> {
    match (a, b) {
        (Some(x), Some(y)) => Some((x + y) as i64),
        _ => None,
    }
}

/// An optional 32-bit count widened to the 64-bit total.
pub open spec fn widen_opt(a: Option<i32>) -> Option<i64> {
    match a {
        Some(x) => Some(x as i64),
        None => None,
    }
}

/// The capacity summary of one layer: its Linux-accelerator unit count, its
/// general-purpose unit count, and its total, each unknown when the provider
/// does not report it.
#[derive(Clone, Copy, Debug, PartialEq, Eq, Structural)]
pub struct CapacitySummary {
    /// Sum of all Linux-accelerator units of the layer.
    pub ifl: Option<i32>,
    /// Sum of all general-purpose units of the layer.
    pub cp: Option<i32>,
    /// The layer's total capacity: a direct total where the kind reports one,
    /// the sum of dedicated and shared otherwise, unknown when the inputs are.
    pub total: Option<i64>,
}

impl<'h> LayerDetails<'h> {
    /// Whether the borrowed layer index lies within its record.
    pub open spec fn wf(&self) -> bool {
        match self {
            LayerDetails::CEC(c) => c.wf(),
            LayerDetails::Lpar(c) => c.wf(),
            LayerDetails::ZvmHypervisor(c) => c.wf(),
            LayerDetails::ZvmGuest(c) => c.wf(),
            LayerDetails::KvmHypervisor(c) => c.wf(),
            LayerDetails::KvmGuest(c) => c.wf(),
            _ => true,
        }
    }

    /// What the capacity summary of this layer is, by kind: hypervisors
    /// report a direct total; the physical machine derives its total from the
    /// dedicated and shared core counts; a logical partition from its two
    /// unit counts; a KVM guest counts only accelerator units. Kinds without
    /// an accessor set report an unimplemented kind.
    pub open spec fn summary_model(&self) -> Result<CapacitySummary, Error> {
        match self {
            LayerDetails::CEC(c) => match int_attr_result(c.entries(), AttributeId::NumIflTotal) {
                Err(e) => Err(e),
                Ok(ifl) => match int_attr_result(c.entries(), AttributeId::NumCpTotal) {
                    Err(e) => Err(e),
                    Ok(cp) => match int_attr_result(c.entries(), AttributeId::NumCoreDedicated) {
                        Err(e) => Err(e),
                        Ok(d) => match int_attr_result(c.entries(), AttributeId::NumCoreShared) {
                            Err(e) => Err(e),
                            Ok(s) => Ok(
                                CapacitySummary { ifl, cp, total: sum_when_both(d, s) },
                            ),
                        },
                    },
                },
            },
            LayerDetails::Lpar(c) => match int_attr_result(c.entries(), AttributeId::NumIflTotal) {
                Err(e) => Err(e),
                Ok(ifl) => match int_attr_result(c.entries(), AttributeId::NumCpTotal) {
                    Err(e) => Err(e),
                    Ok(cp) => Ok(CapacitySummary { ifl, cp, total: sum_when_both(ifl, cp) }),
                },
            },
            LayerDetails::ZvmHypervisor(c) => match int_attr_result(
                c.entries(),
                AttributeId::NumIflTotal,
            ) {
                Err(e) => Err(e),
                Ok(ifl) => match int_attr_result(c.entries(), AttributeId::NumCpTotal) {
                    Err(e) => Err(e),
                    Ok(cp) => match int_attr_result(c.entries(), AttributeId::NumCoreTotal) {
                        Err(e) => Err(e),
                        Ok(t) => Ok(CapacitySummary { ifl, cp, total: widen_opt(t) }),
                    },
                },
            },
            LayerDetails::ZvmGuest(c) => match int_attr_result(
                c.entries(),
                AttributeId::NumIflTotal,
            ) {
                Err(e) => Err(e),
                Ok(ifl) => match int_attr_result(c.entries(), AttributeId::NumCpTotal) {
                    Err(e) => Err(e),
                    Ok(cp) => match int_attr_result(c.entries(), AttributeId::NumCpuTotal) {
                        Err(e) => Err(e),
                        Ok(t) => Ok(CapacitySummary { ifl, cp, total: widen_opt(t) }),
                    },
                },
            },
            LayerDetails::KvmHypervisor(c) => match int_attr_result(
                c.entries(),
                AttributeId::NumIflTotal,
            ) {
                Err(e) => Err(e),
                Ok(ifl) => match int_attr_result(c.entries(), AttributeId::NumCpTotal) {
                    Err(e) => Err(e),
                    Ok(cp) => match int_attr_result(c.entries(), AttributeId::NumCoreTotal) {
                        Err(e) => Err(e),
                        Ok(t) => Ok(CapacitySummary { ifl, cp, total: widen_opt(t) }),
                    },
                },
            },
            LayerDetails::KvmGuest(c) => match int_attr_result(
                c.entries(),
                AttributeId::NumIflTotal,
            ) {
                Err(e) => Err(e),
                Ok(ifl) => Ok(CapacitySummary { ifl, cp: Some(0), total: widen_opt(ifl) }),
            },
            LayerDetails::LparGroup(_) => Err(
                Error { kind: ErrorKind::UnimplementedKind { layer_type: LayerType::LparGroup } },
            ),
            LayerDetails::ZvmCpuPool(_) => Err(
                Error { kind: ErrorKind::UnimplementedKind { layer_type: LayerType::ZvmCpuPool } },
            ),
            LayerDetails::ZvmResourcePool(_) => Err(
                Error {
                    kind: ErrorKind::UnimplementedKind {
                        layer_type: LayerType::ZvmResourcePool,
                    },
                },
            ),
            LayerDetails::ZosHypervisor(_) => Err(
                Error {
                    kind: ErrorKind::UnimplementedKind { layer_type: LayerType::ZosHypervisor },
                },
            ),
            LayerDetails::ZosTenantResourceGroup(_) => Err(
                Error {
                    kind: ErrorKind::UnimplementedKind {
                        layer_type: LayerType::ZosTenantResourceGroup,
                    },
                },
            ),
            LayerDetails::ZosZcxServer(_) => Err(
                Error {
                    kind: ErrorKind::UnimplementedKind { layer_type: LayerType::ZosZcxServer },
                },
            ),
        }
    }

    /// The capacity summary of this layer, exactly as `summary_model` says.
    pub fn capacity_summary(&self) -> (r: Result<CapacitySummary, Error>)
        requires
            self.wf(),
        ensures
            r == self.summary_model(),
    {
        match self {
            LayerDetails::CEC(c) => {
                let ifl = match c.num_ifl_total() {
                    Ok(v) => v,
                    Err(e) => {
                        return Err(e);
                    },
                };
                let cp = match c.num_cp_total() {
                    Ok(v) => v,
                    Err(e) => {
                        return Err(e);
                    },
                };
                let d = match c.num_core_dedicated() {
                    Ok(v) => v,
                    Err(e) => {
                        return Err(e);
                    },
                };
                let s = match c.num_core_shared() {
                    Ok(v) => v,
                    Err(e) => {
                        return Err(e);
                    },
                };
                Ok(CapacitySummary { ifl, cp, total: crate::derived_total(d, s) })
            },
            LayerDetails::Lpar(c) => {
                let ifl = match c.num_ifl_total() {
                    Ok(v) => v,
                    Err(e) => {
                        return Err(e);
                    },
                };
                let cp = match c.num_cp_total() {
                    Ok(v) => v,
                    Err(e) => {
                        return Err(e);
                    },
                };
                Ok(CapacitySummary { ifl, cp, total: crate::derived_total(ifl, cp) })
            },
            LayerDetails::ZvmHypervisor(c) => {
                let ifl = match c.num_ifl_total() {
                    Ok(v) => v,
                    Err(e) => {
                        return Err(e);
                    },
                };
                let cp = match c.num_cp_total() {
                    Ok(v) => v,
                    Err(e) => {
                        return Err(e);
                    },
                };
                let t = match c.num_core_total() {
                    Ok(v) => v,
                    Err(e) => {
                        return Err(e);
                    },
                };
                Ok(CapacitySummary { ifl, cp, total: widen(t) })
            },
            LayerDetails::ZvmGuest(c) => {
                let ifl = match c.num_ifl_total() {
                    Ok(v) => v,
                    Err(e) => {
                        return Err(e);
                    },
                };
                let cp = match c.num_cp_total() {
                    Ok(v) => v,
                    Err(e) => {
                        return Err(e);
                    },
                };
                let t = match c.num_cpu_total() {
                    Ok(v) => v,
                    Err(e) => {
                        return Err(e);
                    },
                };
                Ok(CapacitySummary { ifl, cp, total: widen(t) })
            },
            LayerDetails::KvmHypervisor(c) => {
                let ifl = match c.num_ifl_total() {
                    Ok(v) => v,
                    Err(e) => {
                        return Err(e);
                    },
                };
                let cp = match c.num_cp_total() {
                    Ok(v) => v,
                    Err(e) => {
                        return Err(e);
                    },
                };
                let t = match c.num_core_total() {
                    Ok(v) => v,
                    Err(e) => {
                        return Err(e);
                    },
                };
                Ok(CapacitySummary { ifl, cp, total: widen(t) })
            },
            LayerDetails::KvmGuest(c) => {
                let ifl = match c.num_ifl_total() {
                    Ok(v) => v,
                    Err(e) => {
                        return Err(e);
                    },
                };
                Ok(CapacitySummary { ifl, cp: Some(0), total: widen(ifl) })
            },
            LayerDetails::LparGroup(_) => Err(
                Error { kind: ErrorKind::UnimplementedKind { layer_type: LayerType::LparGroup } },
            ),
            LayerDetails::ZvmCpuPool(_) => Err(
                Error { kind: ErrorKind::UnimplementedKind { layer_type: LayerType::ZvmCpuPool } },
            ),
            LayerDetails::ZvmResourcePool(_) => Err(
                Error {
                    kind: ErrorKind::UnimplementedKind {
                        layer_type: LayerType::ZvmResourcePool,
                    },
                },
            ),
            LayerDetails::ZosHypervisor(_) => Err(
                Error {
                    kind: ErrorKind::UnimplementedKind { layer_type: LayerType::ZosHypervisor },
                },
            ),
            LayerDetails::ZosTenantResourceGroup(_) => Err(
                Error {
                    kind: ErrorKind::UnimplementedKind {
                        layer_type: LayerType::ZosTenantResourceGroup,
                    },
                },
            ),
            LayerDetails::ZosZcxServer(_) => Err(
                Error {
                    kind: ErrorKind::UnimplementedKind { layer_type: LayerType::ZosZcxServer },
                },
            ),
        }
    }
}

/// Widens an optional unit count to the 64-bit total.
fn widen(a: Option<i32>) -> (r: Option<i64>)
    ensures
        r == widen_opt(a),
{
    match a {
        Some(x) => Some(x as i64),
        None => None,
    }
}

} // verus!


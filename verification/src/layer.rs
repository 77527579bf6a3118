use vstd::prelude::*;

use crate::enums::{
    attr_code, attr_display, layer_category_display, layer_category_of_code, layer_type_display,
    layer_type_of_code, AttributeId, LayerCategory, LayerType,
};
use crate::error::{Error, ErrorKind};
use crate::json::{JsonObj, JsonVal, JsonValModel, ObjModel};
use crate::layers::{
    attr_json_result, cec_table, kvm_guest_table, kvm_hypervisor_table, lpar_table, table_json,
    zvm_guest_table, zvm_hypervisor_table, LayerDetails, TableRow, CEC, KvmGuest, KvmHypervisor,
    Lpar, ZvmGuest, ZvmHypervisor,
};
use crate::snapshot::{
    resp_of, string_query_matches, AttrResponseModel, AttrValueModel, LayerModel, QueryCapacity,
};

verus! {

/// A view of one layer of the stack: the capacity record it reads and its
/// 0-based position, bottom (physical machine) first. It stores nothing of
/// its own and can be re-derived from that pair at any time.
pub struct Layer<'h> {
    /// The capacity record this view borrows.
    pub qc: &'h QueryCapacity,
    /// The 0-based index of the layer this view reads.
    pub layer: u32,
}

/// The outcome of an integer attribute every layer must carry: its value when
/// present with the declared kind; a catalog violation when the provider
/// omits it or hands back another kind; the provider's error for a failed
/// fetch.
pub open spec fn required_int_result(entries: LayerModel, id: AttributeId) -> Result<i32, Error> {
    match resp_of(entries, attr_code(id)) {
        AttrResponseModel::Fail(c) => Err(Error { kind: ErrorKind::Query { code: c } }),
        AttrResponseModel::Absent => Err(Error { kind: ErrorKind::CatalogViolation { raw: attr_code(id) as i64 } }),
        AttrResponseModel::Present(v) => match v {
            AttrValueModel::Int(x) => Ok(x),
            _ => Err(Error { kind: ErrorKind::CatalogViolation { raw: attr_code(id) as i64 } }),
        },
    }
}

/// What decoding a layer's kind yields: the catalog entry of the reported
/// code, or a catalog violation for a missing, negative or unknown code.
pub open spec fn layer_type_result(entries: LayerModel) -> Result<LayerType, Error> {
    match required_int_result(entries, AttributeId::LayerTypeNum) {
        Err(e) => Err(e),
        Ok(x) => if x < 0 {
            Err(Error { kind: ErrorKind::CatalogViolation { raw: x as i64 } })
        } else {
            match layer_type_of_code(x as u32) {
                Some(t) => Ok(t),
                None => Err(Error { kind: ErrorKind::CatalogViolation { raw: x as i64 } }),
            }
        },
    }
}

/// What decoding a layer's category yields, under the same policy as the
/// kind.
pub open spec fn layer_category_result(entries: LayerModel) -> Result<LayerCategory, Error> {
    match required_int_result(entries, AttributeId::LayerCategoryNum) {
        Err(e) => Err(e),
        Ok(x) => if x < 0 {
            Err(Error { kind: ErrorKind::CatalogViolation { raw: x as i64 } })
        } else {
            match layer_category_of_code(x as u32) {
                Some(c) => Ok(c),
                None => Err(Error { kind: ErrorKind::CatalogViolation { raw: x as i64 } }),
            }
        },
    }
}

/// The projection table of an implemented layer kind; nothing for a kind
/// whose accessor set is not implemented yet.
pub open spec fn details_table(t: LayerType) -> Option<Seq<TableRow>> {
    match t {
        LayerType::CEC => Some(cec_table()),
        LayerType::Lpar => Some(lpar_table()),
        LayerType::ZvmHypervisor => Some(zvm_hypervisor_table()),
        LayerType::ZvmGuest => Some(zvm_guest_table()),
        LayerType::KvmHypervisor => Some(kvm_hypervisor_table()),
        LayerType::KvmGuest => Some(kvm_guest_table()),
        _ => None,
    }
}

/// The full projection of one layer: the five common fields — kind code,
/// category code, kind name, category name, layer name — followed by every
/// kind-specific field of its projection table; or the first failure, checked
/// in that order.
pub open spec fn layer_json(entries: LayerModel) -> Result<ObjModel, Error> {
    match required_int_result(entries, AttributeId::LayerTypeNum) {
        Err(e) => Err(e),
        Ok(tn) => match required_int_result(entries, AttributeId::LayerCategoryNum) {
            Err(e) => Err(e),
            Ok(cn) => match layer_type_result(entries) {
                Err(e) => Err(e),
                Ok(lt) => match layer_category_result(entries) {
                    Err(e) => Err(e),
                    Ok(lc) => match attr_json_result(entries, AttributeId::LayerName) {
                        Err(e) => Err(e),
                        Ok(nv) => match details_table(lt) {
                            None => Err(Error { kind: ErrorKind::UnimplementedKind { layer_type: lt } }),
                            Some(t) => match table_json(entries, t) {
                                Err(e) => Err(e),
                                Ok(pairs) => Ok(
                                    seq![
                                        (
                                            attr_display(AttributeId::LayerTypeNum),
                                            JsonValModel::Int(tn as i64),
                                        ),
                                        (
                                            attr_display(AttributeId::LayerCategoryNum),
                                            JsonValModel::Int(cn as i64),
                                        ),
                                        (
                                            attr_display(AttributeId::LayerType),
                                            JsonValModel::Str(layer_type_display(lt)),
                                        ),
                                        (
                                            attr_display(AttributeId::LayerCategory),
                                            JsonValModel::Str(layer_category_display(lc)),
                                        ),
                                        (attr_display(AttributeId::LayerName), nv),
                                    ] + pairs,
                                ),
                            },
                        },
                    },
                },
            },
        },
    }
}

impl<'h> Layer<'h> {
    /// The layer index lies within the record this view borrows.
    pub open spec fn wf(&self) -> bool {
        (self.layer as int) < self.qc@.len()
    }

    /// The recorded answers of the layer this view reads.
    pub open spec fn entries(&self) -> LayerModel {
        self.qc@[self.layer as int]
    }

    /// The raw numeric kind code of this layer; every layer carries it, so a
    /// missing or non-integer answer is a catalog violation.
    pub fn layer_type_num(&self) -> (r: Result<i32, Error>)
        requires
            self.wf(),
        ensures
            r == required_int_result(self.entries(), AttributeId::LayerTypeNum),
    {
        match self.qc.get_attribute_int(self.layer, AttributeId::LayerTypeNum) {
            Err(e) => Err(e),
            Ok(Some(v)) => Ok(v),
            Ok(None) => Err(
                Error { kind: ErrorKind::CatalogViolation { raw: AttributeId::LayerTypeNum.as_raw() as i64 } },
            ),
        }
    }

    /// The raw numeric category code of this layer, under the same policy as
    /// the kind code.
    pub fn layer_category_num(&self) -> (r: Result<i32, Error>)
        requires
            self.wf(),
        ensures
            r == required_int_result(self.entries(), AttributeId::LayerCategoryNum),
    {
        match self.qc.get_attribute_int(self.layer, AttributeId::LayerCategoryNum) {
            Err(e) => Err(e),
            Ok(Some(v)) => Ok(v),
            Ok(None) => Err(
                Error { kind: ErrorKind::CatalogViolation { raw: AttributeId::LayerCategoryNum.as_raw() as i64 } },
            ),
        }
    }

    /// Decodes this layer's kind through the catalog; a code outside the
    /// closed set is a catalog violation, never a silent coercion.
    pub fn layer_type(&self) -> (r: Result<LayerType, Error>)
        requires
            self.wf(),
        ensures
            r == layer_type_result(self.entries()),
    {
        match self.layer_type_num() {
            Err(e) => Err(e),
            Ok(x) => if x < 0 {
                Err(Error { kind: ErrorKind::CatalogViolation { raw: x as i64 } })
            } else {
                LayerType::from_raw(x as u32)
            },
        }
    }

    /// Decodes this layer's category through the catalog, under the same
    /// policy as the kind.
    pub fn layer_category(&self) -> (r: Result<LayerCategory, Error>)
        requires
            self.wf(),
        ensures
            r == layer_category_result(self.entries()),
    {
        match self.layer_category_num() {
            Err(e) => Err(e),
            Ok(x) => if x < 0 {
                Err(Error { kind: ErrorKind::CatalogViolation { raw: x as i64 } })
            } else {
                LayerCategory::from_raw(x as u32)
            },
        }
    }

    /// The layer's name; many layers legitimately have none.
    pub fn layer_name(&self) -> (r: Result<Option<String>, Error>)
        requires
            self.wf(),
        ensures
            string_query_matches(
                r,
                resp_of(self.entries(), attr_code(AttributeId::LayerName)),
                attr_code(AttributeId::LayerName),
            ),
    {
        self.qc.get_attribute_string(self.layer, AttributeId::LayerName)
    }

    /// Dispatches on this layer's kind to the matching detail accessor set.
    /// A kind without an accessor set reports an unimplemented kind: an
    /// explicit outcome, never a guessed shape.
    pub fn details(&self) -> (r: Result<LayerDetails<'h>, Error>)
        requires
            self.wf(),
        ensures
            layer_type_result(self.entries()) matches Err(e) ==> r == Err::<
                LayerDetails<'h>,
                Error,
            >(e),
            layer_type_result(self.entries()) matches Ok(t) ==> match t {
                LayerType::CEC => r matches Ok(d) && d matches LayerDetails::CEC(c) && c.qc
                    == self.qc && c.layer == self.layer,
                LayerType::Lpar => r matches Ok(d) && d matches LayerDetails::Lpar(c) && c.qc
                    == self.qc && c.layer == self.layer,
                LayerType::ZvmHypervisor => r matches Ok(d) && d matches LayerDetails::ZvmHypervisor(
                    c,
                ) && c.qc == self.qc && c.layer == self.layer,
                LayerType::ZvmGuest => r matches Ok(d) && d matches LayerDetails::ZvmGuest(c)
                    && c.qc == self.qc && c.layer == self.layer,
                LayerType::KvmHypervisor => r matches Ok(d) && d matches LayerDetails::KvmHypervisor(
                    c,
                ) && c.qc == self.qc && c.layer == self.layer,
                LayerType::KvmGuest => r matches Ok(d) && d matches LayerDetails::KvmGuest(c)
                    && c.qc == self.qc && c.layer == self.layer,
                _ => r == Err::<LayerDetails<'h>, Error>(Error { kind: ErrorKind::UnimplementedKind { layer_type: t } }),
            },
    {
        let t = match self.layer_type() {
            Ok(t) => t,
            Err(e) => {
                return Err(e);
            },
        };
        match t {
            LayerType::CEC => Ok(LayerDetails::CEC(CEC { qc: self.qc, layer: self.layer })),
            LayerType::Lpar => Ok(LayerDetails::Lpar(Lpar { qc: self.qc, layer: self.layer })),
            LayerType::ZvmHypervisor => Ok(
                LayerDetails::ZvmHypervisor(ZvmHypervisor { qc: self.qc, layer: self.layer }),
            ),
            LayerType::ZvmGuest => Ok(
                LayerDetails::ZvmGuest(ZvmGuest { qc: self.qc, layer: self.layer }),
            ),
            LayerType::KvmHypervisor => Ok(
                LayerDetails::KvmHypervisor(KvmHypervisor { qc: self.qc, layer: self.layer }),
            ),
            LayerType::KvmGuest => Ok(
                LayerDetails::KvmGuest(KvmGuest { qc: self.qc, layer: self.layer }),
            ),
            LayerType::LparGroup => Err(Error { kind: ErrorKind::UnimplementedKind { layer_type: t } }),
            LayerType::ZvmCpuPool => Err(Error { kind: ErrorKind::UnimplementedKind { layer_type: t } }),
            LayerType::ZvmResourcePool => Err(Error { kind: ErrorKind::UnimplementedKind { layer_type: t } }),
            LayerType::ZosHypervisor => Err(Error { kind: ErrorKind::UnimplementedKind { layer_type: t } }),
            LayerType::ZosTenantResourceGroup => Err(Error { kind: ErrorKind::UnimplementedKind { layer_type: t } }),
            LayerType::ZosZcxServer => Err(Error { kind: ErrorKind::UnimplementedKind { layer_type: t } }),
        }
    }

    /// Builds the structured projection of this layer: the five common
    /// fields, then every declared field of its kind, each attribute carried
    /// as its value or as explicit null when absent.
    pub fn to_json(&self) -> (r: Result<JsonObj, Error>)
        requires
            self.wf(),
        ensures
            layer_json(self.entries()) matches Ok(pairs) ==> r matches Ok(obj) && obj@ == pairs,
            layer_json(self.entries()) matches Err(e) ==> r == Err::<JsonObj, Error>(e),
    {
        let mut obj = JsonObj::new();
        let tn = match self.layer_type_num() {
            Ok(v) => v,
            Err(e) => {
                return Err(e);
            },
        };
        let cn = match self.layer_category_num() {
            Ok(v) => v,
            Err(e) => {
                return Err(e);
            },
        };
        let lt = match self.layer_type() {
            Ok(v) => v,
            Err(e) => {
                return Err(e);
            },
        };
        let lc = match self.layer_category() {
            Ok(v) => v,
            Err(e) => {
                return Err(e);
            },
        };
        let name = match self.layer_name() {
            Ok(v) => v,
            Err(e) => {
                return Err(e);
            },
        };
        obj.push(AttributeId::LayerTypeNum.display_name(), JsonVal::Int(tn as i64));
        obj.push(AttributeId::LayerCategoryNum.display_name(), JsonVal::Int(cn as i64));
        obj.push(
            AttributeId::LayerType.display_name(),
            JsonVal::Str(String::from_str(lt.display_name())),
        );
        obj.push(
            AttributeId::LayerCategory.display_name(),
            JsonVal::Str(String::from_str(lc.display_name())),
        );
        match name {
            Some(s) => obj.push(AttributeId::LayerName.display_name(), JsonVal::Str(s)),
            None => obj.push(AttributeId::LayerName.display_name(), JsonVal::Null),
        }
        let details = match self.details() {
            Ok(d) => d,
            Err(e) => {
                return Err(e);
            },
        };
        let step = match details {
            LayerDetails::CEC(c) => c.update_json(&mut obj),
            LayerDetails::Lpar(c) => c.update_json(&mut obj),
            LayerDetails::ZvmHypervisor(c) => c.update_json(&mut obj),
            LayerDetails::ZvmGuest(c) => c.update_json(&mut obj),
            LayerDetails::KvmHypervisor(c) => c.update_json(&mut obj),
            LayerDetails::KvmGuest(c) => c.update_json(&mut obj),
            LayerDetails::LparGroup(_) => {
                proof {
                    assert(false);
                }
                Err(Error { kind: ErrorKind::UnimplementedKind { layer_type: lt } })
            },
            LayerDetails::ZvmCpuPool(_) => {
                proof {
                    assert(false);
                }
                Err(Error { kind: ErrorKind::UnimplementedKind { layer_type: lt } })
            },
            LayerDetails::ZvmResourcePool(_) => {
                proof {
                    assert(false);
                }
                Err(Error { kind: ErrorKind::UnimplementedKind { layer_type: lt } })
            },
            LayerDetails::ZosHypervisor(_) => {
                proof {
                    assert(false);
                }
                Err(Error { kind: ErrorKind::UnimplementedKind { layer_type: lt } })
            },
            LayerDetails::ZosTenantResourceGroup(_) => {
                proof {
                    assert(false);
                }
                Err(Error { kind: ErrorKind::UnimplementedKind { layer_type: lt } })
            },
            LayerDetails::ZosZcxServer(_) => {
                proof {
                    assert(false);
                }
                Err(Error { kind: ErrorKind::UnimplementedKind { layer_type: lt } })
            },
        };
        match step {
            Ok(()) => {
                proof {
                    match layer_json(self.entries()) {
                        Ok(pairs) => {
                            assert(obj@ =~= pairs);
                        },
                        Err(_) => {},
                    }
                }
                Ok(obj)
            },
            Err(e) => Err(e),
        }
    }
}

/// Every successful layer projection opens with the five common fields, in
/// order: kind code, category code, kind name, category name, layer name.
/// The layer-name field carries the reported name and is explicit null
/// exactly when the provider reports the name absent.
pub proof fn lemma_to_json_common_fields(entries: LayerModel)
    ensures
        layer_json(entries) matches Ok(pairs) ==> pairs.len() >= 5,
        layer_json(entries) matches Ok(pairs) ==> pairs[0].0 == "layer_type_num"@,
        layer_json(entries) matches Ok(pairs) ==> pairs[1].0 == "layer_category_num"@,
        layer_json(entries) matches Ok(pairs) ==> pairs[2].0 == "layer_type"@,
        layer_json(entries) matches Ok(pairs) ==> pairs[3].0 == "layer_category"@,
        layer_json(entries) matches Ok(pairs) ==> pairs[4].0 == "layer_name"@,
        layer_json(entries) matches Ok(pairs) ==> (resp_of(
            entries,
            attr_code(AttributeId::LayerName),
        ) == AttrResponseModel::Absent ==> pairs[4].1 == JsonValModel::Null),
        layer_json(entries) matches Ok(pairs) ==> (resp_of(
            entries,
            attr_code(AttributeId::LayerName),
        ) matches AttrResponseModel::Present(AttrValueModel::Str(s)) ==> pairs[4].1
            == JsonValModel::Str(s)),
{
    match required_int_result(entries, AttributeId::LayerTypeNum) {
        Err(_) => {},
        Ok(tn) => match required_int_result(entries, AttributeId::LayerCategoryNum) {
            Err(_) => {},
            Ok(cn) => match layer_type_result(entries) {
                Err(_) => {},
                Ok(lt) => match layer_category_result(entries) {
                    Err(_) => {},
                    Ok(lc) => match attr_json_result(entries, AttributeId::LayerName) {
                        Err(_) => {},
                        Ok(nv) => match details_table(lt) {
                            None => {},
                            Some(t) => match table_json(entries, t) {
                                Err(_) => {},
                                Ok(kind_pairs) => {
                                    let common = seq![
                                        (
                                            attr_display(AttributeId::LayerTypeNum),
                                            JsonValModel::Int(tn as i64),
                                        ),
                                        (
                                            attr_display(AttributeId::LayerCategoryNum),
                                            JsonValModel::Int(cn as i64),
                                        ),
                                        (
                                            attr_display(AttributeId::LayerType),
                                            JsonValModel::Str(layer_type_display(lt)),
                                        ),
                                        (
                                            attr_display(AttributeId::LayerCategory),
                                            JsonValModel::Str(layer_category_display(lc)),
                                        ),
                                        (attr_display(AttributeId::LayerName), nv),
                                    ];
                                    let pairs = common + kind_pairs;
                                    assert(layer_json(entries) == Ok::<ObjModel, Error>(pairs));
                                    assert(pairs[0] == common[0]);
                                    assert(pairs[1] == common[1]);
                                    assert(pairs[2] == common[2]);
                                    assert(pairs[3] == common[3]);
                                    assert(pairs[4] == common[4]);
                                },
                            },
                        },
                    },
                },
            },
        },
    }
}

} // verus!

//! Verified model of a mainframe capacity-information stack: an ordered stack
//! of virtualization layers (physical machine, hypervisors, guest
//! partitions), each exposing typed attributes through a flat, integer-keyed
//! query surface.
//!
//! The catalog (`enums`) closes the sets of layer kinds, categories and
//! attribute identifiers; a capacity record (`snapshot`) holds everything a
//! provider reported; layer views (`layer`, `layers`) decode kinds and expose
//! per-kind typed accessors; the structured projection (`json`) renders every
//! layer with a stable, explicit-null shape.

pub mod enums;
pub mod error;
pub mod json;
pub mod layer;
pub mod layers;
pub mod snapshot;

pub use enums::{AttributeId, LayerCategory, LayerType, ValueKind};
pub use error::{Error, ErrorKind};
pub use json::{DocEntry, JsonDoc, JsonObj, JsonPair, JsonVal};
pub use layer::Layer;
pub use layers::{
    CapacitySummary, KvmGuest, KvmHypervisor, LayerDetails, Lpar, LparGroup, ZosHypervisor,
    ZosTenantResourceGroup, ZosZcxServer, ZvmCpuPool, ZvmGuest, ZvmHypervisor, ZvmResourcePool, CEC,
};
pub use snapshot::{AttrEntry, AttrResponse, AttrValue, LayerData, QueryCapacity};

use crate::json::ObjModel;
use crate::layer::{layer_category_result, layer_json};
use crate::snapshot::LayerModel;

use vstd::prelude::*;

verus! {

/// Decodes the status an attachment attempt reports: a negative status is an
/// attach failure, anything else means the attachment is usable.
pub fn decode_attach_status(rc: i32) -> (r: Result<(), Error>)
    ensures
        rc < 0 ==> r == Err::<(), Error>(Error { kind: ErrorKind::Attach { code: rc } }),
        rc >= 0 ==> r == Ok::<(), Error>(()),
{
    if rc < 0 {
        Err(Error { kind: ErrorKind::Attach { code: rc } })
    } else {
        Ok(())
    }
}

/// Decodes what a layer-count query reports: a negative status is a query
/// failure, a negative count under a clean status breaks the provider's
/// contract, anything else is the count.
pub fn decode_count_status(rc: i32, count: i32) -> (r: Result<u32, Error>)
    ensures
        rc < 0 ==> r == Err::<u32, Error>(Error { kind: ErrorKind::Query { code: rc } }),
        rc >= 0 && count < 0 ==> r == Err::<u32, Error>(Error { kind: ErrorKind::CatalogViolation {
            raw: count as i64,
        } }),
        rc >= 0 && count >= 0 ==> r == Ok::<u32, Error>(count as u32),
{
    if rc < 0 {
        Err(Error { kind: ErrorKind::Query { code: rc } })
    } else if count < 0 {
        Err(Error { kind: ErrorKind::CatalogViolation { raw: count as i64 } })
    } else {
        Ok(count as u32)
    }
}

/// The order a forward traversal of `n` layers yields: indices from the
/// bottom (physical machine) upward.
pub open spec fn forward_order(n: int) -> Seq<int> {
    Seq::new(n as nat, |i: int| i)
}

/// The order a backward traversal of `n` layers yields: indices from the top
/// downward.
pub open spec fn backward_order(n: int) -> Seq<int> {
    Seq::new(n as nat, |i: int| n - 1 - i)
}

/// For one fixed count, the backward traversal is the exact mirror of the
/// forward traversal: position `i` of one order is position `n - 1 - i` of
/// the other.
pub proof fn lemma_traversal_mirror(n: int, i: int)
    requires
        0 <= i < n,
    ensures
        forward_order(n)[i] == backward_order(n)[n - 1 - i],
{
}

/// An iterator over the layers of one capacity record, against a count fixed
/// when the iterator was created. Forward steps yield layers bottom to top;
/// backward steps yield them top to bottom; both directions draw from one
/// shared budget of `max_layer` steps.
pub struct LayersIter<'h> {
    /// The capacity record the yielded layers read.
    pub qc: &'h QueryCapacity,
    /// How many steps were already taken.
    pub layer: u32,
    /// The count snapshot taken when the iterator was created.
    pub max_layer: u32,
}

impl<'h> LayersIter<'h> {
    /// The step counter never passes the snapshot, and the snapshot never
    /// passes the record's extent.
    pub open spec fn inv(&self) -> bool {
        self.layer <= self.max_layer && (self.max_layer as int) <= self.qc@.len()
    }

    /// Yields the next layer bottom-up: index `i` at the `i`-th forward step.
    pub fn next(&mut self) -> (r: Option<Layer<'h>>)
        requires
            old(self).inv(),
        ensures
            final(self).inv(),
            final(self).qc == old(self).qc,
            final(self).max_layer == old(self).max_layer,
            old(self).layer == old(self).max_layer ==> r is None && final(self).layer == old(
                self,
            ).layer,
            old(self).layer < old(self).max_layer ==> (r matches Some(l) && l.qc == old(self).qc
                && l.layer as int == forward_order(old(self).max_layer as int)[old(
                self,
            ).layer as int] && final(self).layer == old(self).layer + 1),
    {
        if self.layer == self.max_layer {
            return None;
        }
        let layer = Layer { qc: self.qc, layer: self.layer };
        self.layer = self.layer + 1;
        Some(layer)
    }

    /// Yields the next layer top-down: index `n - 1 - i` at the `i`-th
    /// backward step, the exact mirror of the forward order for the same
    /// snapshot.
    pub fn next_back(&mut self) -> (r: Option<Layer<'h>>)
        requires
            old(self).inv(),
        ensures
            final(self).inv(),
            final(self).qc == old(self).qc,
            final(self).max_layer == old(self).max_layer,
            old(self).layer == old(self).max_layer ==> r is None && final(self).layer == old(
                self,
            ).layer,
            old(self).layer < old(self).max_layer ==> (r matches Some(l) && l.qc == old(self).qc
                && l.layer as int == backward_order(old(self).max_layer as int)[old(
                self,
            ).layer as int] && final(self).layer == old(self).layer + 1),
    {
        if self.layer == self.max_layer {
            return None;
        }
        self.layer = self.layer + 1;
        Some(Layer { qc: self.qc, layer: self.max_layer - self.layer })
    }
}

/// The decimal digits of a number, most significant first.
pub open spec fn dec_seq(n: int) -> Seq<char>
    decreases n,
{
    if n < 10 {
        seq![digit_char(n)]
    } else {
        dec_seq(n / 10).push(digit_char(n % 10))
    }
}

/// The character of one decimal digit.
pub open spec fn digit_char(d: int) -> char {
    if d == 0 {
        '0'
    } else if d == 1 {
        '1'
    } else if d == 2 {
        '2'
    } else if d == 3 {
        '3'
    } else if d == 4 {
        '4'
    } else if d == 5 {
        '5'
    } else if d == 6 {
        '6'
    } else if d == 7 {
        '7'
    } else if d == 8 {
        '8'
    } else {
        '9'
    }
}

fn digit_str(d: usize) -> (s: &'static str)
    requires
        d < 10,
    ensures
        s@ == seq![digit_char(d as int)],
{
    let s: &'static str = if d == 0 {
        "0"
    } else if d == 1 {
        "1"
    } else if d == 2 {
        "2"
    } else if d == 3 {
        "3"
    } else if d == 4 {
        "4"
    } else if d == 5 {
        "5"
    } else if d == 6 {
        "6"
    } else if d == 7 {
        "7"
    } else if d == 8 {
        "8"
    } else {
        "9"
    };
    proof {
        reveal_strlit("0");
        reveal_strlit("1");
        reveal_strlit("2");
        reveal_strlit("3");
        reveal_strlit("4");
        reveal_strlit("5");
        reveal_strlit("6");
        reveal_strlit("7");
        reveal_strlit("8");
        reveal_strlit("9");
        assert(s@ =~= seq![digit_char(d as int)]);
    }
    s
}

/// Renders a number in decimal.
pub fn usize_to_dec(n: usize) -> (s: String)
    ensures
        s@ == dec_seq(n as int),
    decreases n,
{
    if n < 10 {
        String::from_str(digit_str(n))
    } else {
        let mut s = usize_to_dec(n / 10);
        s.append(digit_str(n % 10));
        proof {
            assert(s@ =~= dec_seq(n as int));
        }
        s
    }
}

/// The stable ordinal label of one layer of the document.
pub open spec fn layer_label(i: int) -> Seq<char> {
    "Layer "@ + dec_seq(i)
}

/// Renders the ordinal label of one layer.
pub fn make_layer_label(i: usize) -> (s: String)
    ensures
        s@ == layer_label(i as int),
{
    let mut s = String::from_str("Layer ");
    let d = usize_to_dec(i);
    s.append(d.as_str());
    s
}

/// The whole-stack document over the first `n` layers: one entry per layer in
/// bottom-to-top order, keyed by ordinal label; or the first failing layer's
/// error.
pub open spec fn doc_json(layers: Seq<LayerModel>, n: int) -> Result<
    Seq<(Seq<char>, ObjModel)>,
    Error,
>
    decreases n,
{
    if n <= 0 {
        Ok(Seq::<(Seq<char>, ObjModel)>::empty())
    } else {
        match doc_json(layers, n - 1) {
            Err(e) => Err(e),
            Ok(front) => match layer_json(layers[n - 1]) {
                Err(e) => Err(e),
                Ok(pairs) => Ok(front.push((layer_label(n - 1), pairs))),
            },
        }
    }
}

/// A failing layer poisons the whole document: once the layers below project
/// cleanly and layer `k` fails, the full document reports layer `k`'s error.
proof fn lemma_doc_json_err(layers: Seq<LayerModel>, n: int, k: int, e: Error)
    requires
        0 <= k < n,
        doc_json(layers, k) is Ok,
        layer_json(layers[k]) == Err::<ObjModel, Error>(e),
    ensures
        doc_json(layers, n) == Err::<Seq<(Seq<char>, ObjModel)>, Error>(e),
    decreases n,
{
    if n > k + 1 {
        lemma_doc_json_err(layers, n - 1, k, e);
    }
}

/// The decoded category of every layer, bottom first; or the error of the
/// first layer whose category cannot be decoded.
pub open spec fn categories_result(layers: Seq<LayerModel>, n: int) -> Result<
    Seq<LayerCategory>,
    Error,
>
    decreases n,
{
    if n <= 0 {
        Ok(Seq::<LayerCategory>::empty())
    } else {
        match categories_result(layers, n - 1) {
            Err(e) => Err(e),
            Ok(front) => match layer_category_result(layers[n - 1]) {
                Err(e) => Err(e),
                Ok(c) => Ok(front.push(c)),
            },
        }
    }
}

/// Same poisoning for the category sweep: the first undecodable category is
/// the whole sweep's error.
proof fn lemma_categories_err(layers: Seq<LayerModel>, n: int, k: int, e: Error)
    requires
        0 <= k < n,
        categories_result(layers, k) is Ok,
        layer_category_result(layers[k]) == Err::<LayerCategory, Error>(e),
    ensures
        categories_result(layers, n) == Err::<Seq<LayerCategory>, Error>(e),
    decreases n,
{
    if n > k + 1 {
        lemma_categories_err(layers, n - 1, k, e);
    }
}

/// How many of the given categories are Host.
pub open spec fn host_count(cats: Seq<LayerCategory>) -> int
    decreases cats.len(),
{
    if cats.len() == 0 {
        0int
    } else {
        host_count(cats.drop_last()) + if cats.last() == LayerCategory::Host {
            1int
        } else {
            0int
        }
    }
}

/// Total capacity of a kind without a direct total attribute: the sum of the
/// dedicated and shared components when both are present; unknown — never an
/// assumed zero — when either is absent.
pub fn derived_total(dedicated: Option<i32>, shared: Option<i32>) -> (r: Option<i64>)
    ensures
        (match (dedicated, shared) {
            (Some(d), Some(s)) => r matches Some(t) && t == d + s,
            _ => r is None,
        }),
{
    match (dedicated, shared) {
        (Some(d), Some(s)) => {
            let t: i64 = d as i64 + s as i64;
            proof {
                assert(t == d + s);
            }
            Some(t)
        },
        _ => None,
    }
}

impl QueryCapacity {
    /// An iterator over all layers of this record, bottom (physical machine)
    /// first, with the count fixed at creation.
    pub fn layers<'h>(&'h self) -> (r: LayersIter<'h>)
        requires
            self@.len() < 0x1_0000_0000,
        ensures
            r.qc == self,
            r.layer == 0,
            r.max_layer as int == self@.len(),
            r.inv(),
    {
        let count = self.layer_count();
        LayersIter { qc: self, layer: 0, max_layer: count as u32 }
    }

    /// Builds the whole-stack structured document: every layer's projection,
    /// keyed by ordinal label, bottom to top; or the first failing layer's
    /// error.
    pub fn to_json(&self) -> (r: Result<JsonDoc, Error>)
        requires
            self@.len() < 0x1_0000_0000,
        ensures
            doc_json(self@, self@.len() as int) matches Ok(entries) ==> r matches Ok(doc) && doc@
                == entries,
            doc_json(self@, self@.len() as int) matches Err(e) ==> r == Err::<JsonDoc, Error>(e),
    {
        let mut doc = JsonDoc::new();
        let count = self.layer_count();
        let mut i: usize = 0;
        while i < count
            invariant
                i <= count,
                count == self@.len(),
                count < 0x1_0000_0000,
                (doc_json(self@, i as int) matches Ok(entries) && doc@ == entries),
            decreases count - i,
        {
            let layer = Layer { qc: self, layer: i as u32 };
            match layer.to_json() {
                Ok(obj) => {
                    let label = make_layer_label(i);
                    doc.push(label, obj);
                },
                Err(e) => {
                    proof {
                        lemma_doc_json_err(self@, count as int, i as int, e);
                    }
                    return Err(e);
                },
            }
            i = i + 1;
        }
        Ok(doc)
    }

    /// The decoded category of every layer, bottom first; stops at the first
    /// layer whose category cannot be decoded and reports its error.
    pub fn categories(&self) -> (r: Result<Vec<LayerCategory>, Error>)
        requires
            self@.len() < 0x1_0000_0000,
        ensures
            categories_result(self@, self@.len() as int) matches Ok(cats) ==> r matches Ok(v) && v@
                == cats && v@.len() == self@.len(),
            categories_result(self@, self@.len() as int) matches Err(e) ==> r == Err::<
                Vec<LayerCategory>,
                Error,
            >(e),
    {
        let mut v: Vec<LayerCategory> = Vec::new();
        let count = self.layer_count();
        let mut i: usize = 0;
        while i < count
            invariant
                i <= count,
                count == self@.len(),
                count < 0x1_0000_0000,
                v@.len() == i,
                (categories_result(self@, i as int) matches Ok(cats) && v@ == cats),
            decreases count - i,
        {
            let layer = Layer { qc: self, layer: i as u32 };
            match layer.layer_category() {
                Ok(c) => {
                    v.push(c);
                },
                Err(e) => {
                    proof {
                        lemma_categories_err(self@, count as int, i as int, e);
                    }
                    return Err(e);
                },
            }
            i = i + 1;
        }
        Ok(v)
    }

    /// How many layers of this record carry the Host category; or the first
    /// undecodable category's error.
    pub fn host_layer_count(&self) -> (r: Result<usize, Error>)
        requires
            self@.len() < 0x1_0000_0000,
        ensures
            categories_result(self@, self@.len() as int) matches Ok(cats) ==> r matches Ok(n) && n
                == host_count(cats),
            categories_result(self@, self@.len() as int) matches Err(e) ==> r == Err::<
                usize,
                Error,
            >(e),
    {
        let cats = match self.categories() {
            Ok(v) => v,
            Err(e) => {
                return Err(e);
            },
        };
        let mut n: usize = 0;
        let mut i: usize = 0;
        while i < cats.len()
            invariant
                i <= cats@.len(),
                n <= i,
                n == host_count(cats@.take(i as int)),
            decreases cats@.len() - i,
        {
            proof {
                assert(cats@.take(i + 1).drop_last() =~= cats@.take(i as int));
            }
            if cats[i] == LayerCategory::Host {
                n = n + 1;
            }
            i = i + 1;
        }
        proof {
            assert(cats@.take(cats@.len() as int) =~= cats@);
        }
        Ok(n)
    }

    /// The nesting level of every layer, bottom first: scanning upward, the
    /// level counts the Host layers seen so far (zero at the first Host);
    /// Guest and Pool layers keep the level of their enclosing host. Reports
    /// the first undecodable category's error.
    pub fn nesting_levels(&self) -> (r: Result<Vec<i64>, Error>)
        requires
            self@.len() < 0x1_0000_0000,
        ensures
            categories_result(self@, self@.len() as int) matches Ok(cats) ==> r matches Ok(v) && (
            v@.len() == cats.len() && forall|i: int|
                0 <= i < cats.len() ==> v@[i] == host_count(cats.take(i + 1)) - 1),
            categories_result(self@, self@.len() as int) matches Err(e) ==> r == Err::<
                Vec<i64>,
                Error,
            >(e),
    {
        let cats = match self.categories() {
            Ok(v) => v,
            Err(e) => {
                return Err(e);
            },
        };
        let mut levels: Vec<i64> = Vec::new();
        let mut level: i64 = -1;
        let mut i: usize = 0;
        while i < cats.len()
            invariant
                i <= cats@.len(),
                cats@.len() < 0x1_0000_0000,
                level == host_count(cats@.take(i as int)) - 1,
                -1 <= level,
                level < i + 1,
                levels@.len() == i,
                forall|j: int| 0 <= j < i ==> levels@[j] == host_count(cats@.take(j + 1)) - 1,
            decreases cats@.len() - i,
        {
            proof {
                assert(cats@.take(i + 1).drop_last() =~= cats@.take(i as int));
            }
            if cats[i] == LayerCategory::Host {
                level = level + 1;
            }
            levels.push(level);
            i = i + 1;
        }
        proof {
            assert(cats@.take(cats@.len() as int) =~= cats@);
        }
        Ok(levels)
    }
}


} // verus!

use vstd::prelude::*;

use crate::enums::{attr_code, attr_kind, AttributeId, ValueKind};
use crate::error::{Error, ErrorKind};

verus! {

/// One attribute value, in one of the three declared kinds. A floating-point
/// value is carried as its raw 32-bit IEEE-754 pattern, so that the value can
/// be held and compared exactly; rendering it is left to the embedding.
#[derive(Debug, PartialEq)]
pub enum AttrValue {
    /// A textual value.
    Str(String),
    /// A 32-bit signed integer value.
    Int(i32),
    /// The raw bit pattern of a 32-bit floating-point value.
    Float(u32),
}

/// Mathematical model of an attribute value.
pub ghost enum AttrValueModel {
    Str(Seq<char>),
    Int(i32),
    Float(u32),
}

impl View for AttrValue {
    type V = AttrValueModel;

    open spec fn view(&self) -> AttrValueModel {
        match self {
            AttrValue::Str(s) => AttrValueModel::Str(s@),
            AttrValue::Int(v) => AttrValueModel::Int(*v),
            AttrValue::Float(b) => AttrValueModel::Float(*b),
        }
    }
}

impl AttrValue {
    /// The declared kind this value belongs to.
    pub open spec fn kind(&self) -> ValueKind {
        match self {
            AttrValue::Str(_) => ValueKind::Str,
            AttrValue::Int(_) => ValueKind::Int,
            AttrValue::Float(_) => ValueKind::Float,
        }
    }
}

impl AttrValueModel {
    /// The declared kind this value belongs to.
    pub open spec fn kind(&self) -> ValueKind {
        match self {
            AttrValueModel::Str(_) => ValueKind::Str,
            AttrValueModel::Int(_) => ValueKind::Int,
            AttrValueModel::Float(_) => ValueKind::Float,
        }
    }
}

/// The outcome of one attribute query, exactly one of: a value is present,
/// the attribute is genuinely absent at this layer, or the provider reported
/// a negative status for this query. Absence is a first-class outcome, never
/// an error and never a default value.
#[derive(Debug, PartialEq)]
pub enum AttrResponse {
    /// The attribute is present with the given value.
    Present(AttrValue),
    /// The attribute is absent at this layer.
    Absent,
    /// The provider reported this negative status for the query.
    Fail(i32),
}

/// Mathematical model of a query outcome.
pub ghost enum AttrResponseModel {
    Present(AttrValueModel),
    Absent,
    Fail(i32),
}

impl View for AttrResponse {
    type V = AttrResponseModel;

    open spec fn view(&self) -> AttrResponseModel {
        match self {
            AttrResponse::Present(v) => AttrResponseModel::Present(v@),
            AttrResponse::Absent => AttrResponseModel::Absent,
            AttrResponse::Fail(c) => AttrResponseModel::Fail(*c),
        }
    }
}

impl AttrResponse {
    /// Classifies the status a textual fetch reports: `1` means present, `0`
    /// absent, anything else is the provider's error status for this query.
    pub fn from_status_str(rc: i32, value: String) -> (r: AttrResponse)
        ensures
            rc == 1 ==> (r@ matches AttrResponseModel::Present(v) && v == AttrValueModel::Str(
                value@,
            )),
            rc == 0 ==> r@ == AttrResponseModel::Absent,
            rc != 1 && rc != 0 ==> r@ == AttrResponseModel::Fail(rc),
    {
        if rc == 1 {
            AttrResponse::Present(AttrValue::Str(value))
        } else if rc == 0 {
            AttrResponse::Absent
        } else {
            AttrResponse::Fail(rc)
        }
    }

    /// Classifies the status an integer fetch reports.
    pub fn from_status_int(rc: i32, value: i32) -> (r: AttrResponse)
        ensures
            rc == 1 ==> r@ == AttrResponseModel::Present(AttrValueModel::Int(value)),
            rc == 0 ==> r@ == AttrResponseModel::Absent,
            rc != 1 && rc != 0 ==> r@ == AttrResponseModel::Fail(rc),
    {
        if rc == 1 {
            AttrResponse::Present(AttrValue::Int(value))
        } else if rc == 0 {
            AttrResponse::Absent
        } else {
            AttrResponse::Fail(rc)
        }
    }

    /// Classifies the status a floating-point fetch reports; the value is the
    /// raw bit pattern.
    pub fn from_status_float(rc: i32, bits: u32) -> (r: AttrResponse)
        ensures
            rc == 1 ==> r@ == AttrResponseModel::Present(AttrValueModel::Float(bits)),
            rc == 0 ==> r@ == AttrResponseModel::Absent,
            rc != 1 && rc != 0 ==> r@ == AttrResponseModel::Fail(rc),
    {
        if rc == 1 {
            AttrResponse::Present(AttrValue::Float(bits))
        } else if rc == 0 {
            AttrResponse::Absent
        } else {
            AttrResponse::Fail(rc)
        }
    }
}

/// One recorded answer of the provider: the attribute's numeric identifier
/// and the outcome of querying it.
#[derive(Debug)]
pub struct AttrEntry {
    /// The attribute's numeric identifier.
    pub code: u32,
    /// The outcome of querying that attribute at this layer.
    pub response: AttrResponse,
}

impl View for AttrEntry {
    type V = (u32, AttrResponseModel);

    open spec fn view(&self) -> (u32, AttrResponseModel) {
        (self.code, self.response@)
    }
}

/// Model of one layer: the recorded answers in order. An attribute without an
/// entry is absent.
pub type LayerModel = Seq<(u32, AttrResponseModel)>;

/// The outcome of querying `code` against a layer: the first recorded answer
/// carrying that identifier, or absence when none is recorded.
pub open spec fn resp_of(entries: LayerModel, code: u32) -> AttrResponseModel
    decreases entries.len(),
{
    if entries.len() == 0 {
        AttrResponseModel::Absent
    } else if entries[0].0 == code {
        entries[0].1
    } else {
        resp_of(entries.subrange(1, entries.len() as int), code)
    }
}

/// The answers the provider gives for one layer of the stack.
#[derive(Debug)]
pub struct LayerData {
    /// The recorded answers, in the order they were collected.
    pub entries: Vec<AttrEntry>,
}

impl View for LayerData {
    type V = LayerModel;

    open spec fn view(&self) -> LayerModel {
        self.entries@.map_values(|e: AttrEntry| e@)
    }
}

impl LayerData {
    /// A layer with no recorded answers: every attribute is absent.
    pub fn new() -> (r: LayerData)
        ensures
            r@ == Seq::<(u32, AttrResponseModel)>::empty(),
    {
        let r = LayerData { entries: Vec::new() };
        proof {
            assert(r@ =~= Seq::<(u32, AttrResponseModel)>::empty());
        }
        r
    }

    /// Records the outcome of querying one attribute.
    pub fn push(&mut self, id: AttributeId, response: AttrResponse)
        ensures
            final(self)@ == old(self)@.push((attr_code(id), response@)),
    {
        let code = id.as_raw();
        self.entries.push(AttrEntry { code, response });
        proof {
            assert(final(self)@ =~= old(self)@.push((attr_code(id), response@)));
        }
    }

    /// The first recorded answer for `code`, if any is recorded.
    pub fn find(&self, code: u32) -> (r: Option<&AttrResponse>)
        ensures
            r matches Some(resp) ==> resp@ == resp_of(self@, code),
            r is None ==> resp_of(self@, code) == AttrResponseModel::Absent,
    {
        let n = self.entries.len();
        let mut i: usize = 0;
        proof {
            assert(self@.subrange(0, n as int) =~= self@);
        }
        while i < n
            invariant
                i <= n,
                n == self.entries.len(),
                resp_of(self@, code) == resp_of(self@.subrange(i as int, n as int), code),
            decreases n - i,
        {
            if self.entries[i].code == code {
                proof {
                    assert(self@.subrange(i as int, n as int)[0] == self@[i as int]);
                }
                return Some(&self.entries[i].response);
            }
            proof {
                assert(self@.subrange(i as int, n as int).subrange(
                    1,
                    self@.subrange(i as int, n as int).len() as int,
                ) =~= self@.subrange(i + 1 as int, n as int));
            }
            i = i + 1;
        }
        proof {
            assert(self@.subrange(n as int, n as int) =~= Seq::<(u32, AttrResponseModel)>::empty());
        }
        None
    }
}

/// What a textual query returns for a given recorded outcome: the value when
/// one of the declared kind is present, nothing when the attribute is absent,
/// the provider's error for a failed fetch, and a catalog violation when the
/// provider handed back a value of the wrong kind.
pub open spec fn string_query_matches(
    r: Result<Option<String>, Error>,
    resp: AttrResponseModel,
    code: u32,
) -> bool {
    match resp {
        AttrResponseModel::Present(v) => match v {
            AttrValueModel::Str(s) => r matches Ok(o) && o matches Some(t) && t@ == s,
            _ => r == Err::<Option<String>, Error>(Error { kind: ErrorKind::CatalogViolation { raw: code as i64 } }),
        },
        AttrResponseModel::Absent => r == Ok::<Option<String>, Error>(None),
        AttrResponseModel::Fail(c) => r == Err::<Option<String>, Error>(Error { kind: ErrorKind::Query { code: c } }),
    }
}

/// What an integer query returns for a given recorded outcome.
pub open spec fn int_query_matches(
    r: Result<Option<i32>, Error>,
    resp: AttrResponseModel,
    code: u32,
) -> bool {
    match resp {
        AttrResponseModel::Present(v) => match v {
            AttrValueModel::Int(x) => r == Ok::<Option<i32>, Error>(Some(x)),
            _ => r == Err::<Option<i32>, Error>(Error { kind: ErrorKind::CatalogViolation { raw: code as i64 } }),
        },
        AttrResponseModel::Absent => r == Ok::<Option<i32>, Error>(None),
        AttrResponseModel::Fail(c) => r == Err::<Option<i32>, Error>(Error { kind: ErrorKind::Query { code: c } }),
    }
}

/// What a floating-point query returns for a given recorded outcome; the
/// returned value is the raw bit pattern.
pub open spec fn float_query_matches(
    r: Result<Option<u32>, Error>,
    resp: AttrResponseModel,
    code: u32,
) -> bool {
    match resp {
        AttrResponseModel::Present(v) => match v {
            AttrValueModel::Float(b) => r == Ok::<Option<u32>, Error>(Some(b)),
            _ => r == Err::<Option<u32>, Error>(Error { kind: ErrorKind::CatalogViolation { raw: code as i64 } }),
        },
        AttrResponseModel::Absent => r == Ok::<Option<u32>, Error>(None),
        AttrResponseModel::Fail(c) => r == Err::<Option<u32>, Error>(Error { kind: ErrorKind::Query { code: c } }),
    }
}

/// A fixed record of everything the provider reported: one entry per layer,
/// bottom (physical machine) first. This is the source every typed view reads
/// from; the generic getters realize the flat "attribute id and layer index"
/// query surface against it.
#[derive(Debug)]
pub struct QueryCapacity {
    layer_data: Vec<LayerData>,
}

impl View for QueryCapacity {
    type V = Seq<LayerModel>;

    closed spec fn view(&self) -> Seq<LayerModel> {
        self.layer_data@.map_values(|ld: LayerData| ld@)
    }
}

impl QueryCapacity {
    /// Assembles a capacity record from per-layer data, bottom first.
    pub fn from_layers(layers: Vec<LayerData>) -> (qc: QueryCapacity)
        ensures
            qc@ == layers@.map_values(|ld: LayerData| ld@),
    {
        QueryCapacity { layer_data: layers }
    }

    /// The number of layers in this record.
    pub fn layer_count(&self) -> (n: usize)
        ensures
            n == self@.len(),
    {
        self.layer_data.len()
    }

    /// Queries a textual attribute of one layer. Callers pass only attributes
    /// whose declared kind is textual; the result separates presence, absence
    /// and failure exactly as recorded.
    pub fn get_attribute_string(&self, layer: u32, id: AttributeId) -> (r: Result<
        Option<String>,
        Error,
    >)
        requires
            attr_kind(id) == ValueKind::Str,
            (layer as int) < self@.len(),
        ensures
            string_query_matches(r, resp_of(self@[layer as int], attr_code(id)), attr_code(id)),
    {
        let code = id.as_raw();
        match self.layer_data[layer as usize].find(code) {
            None => Ok(None),
            Some(AttrResponse::Absent) => Ok(None),
            Some(AttrResponse::Present(AttrValue::Str(s))) => Ok(Some(s.clone())),
            Some(AttrResponse::Present(_)) => Err(Error { kind: ErrorKind::CatalogViolation { raw: code as i64 } }),
            Some(AttrResponse::Fail(c)) => Err(Error { kind: ErrorKind::Query { code: *c } }),
        }
    }

    /// Queries an integer attribute of one layer.
    pub fn get_attribute_int(&self, layer: u32, id: AttributeId) -> (r: Result<Option<i32>, Error>)
        requires
            attr_kind(id) == ValueKind::Int,
            (layer as int) < self@.len(),
        ensures
            int_query_matches(r, resp_of(self@[layer as int], attr_code(id)), attr_code(id)),
    {
        let code = id.as_raw();
        match self.layer_data[layer as usize].find(code) {
            None => Ok(None),
            Some(AttrResponse::Absent) => Ok(None),
            Some(AttrResponse::Present(AttrValue::Int(v))) => Ok(Some(*v)),
            Some(AttrResponse::Present(_)) => Err(Error { kind: ErrorKind::CatalogViolation { raw: code as i64 } }),
            Some(AttrResponse::Fail(c)) => Err(Error { kind: ErrorKind::Query { code: *c } }),
        }
    }

    /// Queries a floating-point attribute of one layer; a present value is
    /// returned as its raw bit pattern.
    pub fn get_attribute_float(&self, layer: u32, id: AttributeId) -> (r: Result<
        Option<u32>,
        Error,
    >)
        requires
            attr_kind(id) == ValueKind::Float,
            (layer as int) < self@.len(),
        ensures
            float_query_matches(r, resp_of(self@[layer as int], attr_code(id)), attr_code(id)),
    {
        let code = id.as_raw();
        match self.layer_data[layer as usize].find(code) {
            None => Ok(None),
            Some(AttrResponse::Absent) => Ok(None),
            Some(AttrResponse::Present(AttrValue::Float(b))) => Ok(Some(*b)),
            Some(AttrResponse::Present(_)) => Err(Error { kind: ErrorKind::CatalogViolation { raw: code as i64 } }),
            Some(AttrResponse::Fail(c)) => Err(Error { kind: ErrorKind::Query { code: *c } }),
        }
    }
}

/// Querying by a deprecated alias and by its canonical name hits the identical
/// recorded answer: the two names carry the same numeric identifier, so every
/// layer resolves them to the same outcome.
pub proof fn lemma_alias_query_agrees(entries: LayerModel, a: AttributeId, b: AttributeId)
    requires
        attr_code(a) == attr_code(b),
    ensures
        resp_of(entries, attr_code(a)) == resp_of(entries, attr_code(b)),
{
}

} // verus!

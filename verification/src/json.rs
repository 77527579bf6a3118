use vstd::prelude::*;

verus! {

/// One value of the structured projection: text, an integer, a 32-bit
/// floating-point value carried as its raw bit pattern, or an explicit null
/// standing for an absent attribute. Booleans are carried as 0/1 integers,
/// matching the provider's native encoding.
#[derive(Debug, PartialEq)]
pub enum JsonVal {
    /// Explicit null: the attribute is absent at this layer.
    Null,
    /// An integer value.
    Int(i64),
    /// A textual value.
    Str(String),
    /// The raw bit pattern of a 32-bit floating-point value; the embedding
    /// renders it as a number.
    Float(u32),
}

/// Mathematical model of a projected value.
pub ghost enum JsonValModel {
    Null,
    Int(i64),
    Str(Seq<char>),
    Float(u32),
}

impl View for JsonVal {
    type V = JsonValModel;

    open spec fn view(&self) -> JsonValModel {
        match self {
            JsonVal::Null => JsonValModel::Null,
            JsonVal::Int(v) => JsonValModel::Int(*v),
            JsonVal::Str(s) => JsonValModel::Str(s@),
            JsonVal::Float(b) => JsonValModel::Float(*b),
        }
    }
}

/// One field of a projected layer: its serialization key and its value.
#[derive(Debug, PartialEq)]
pub struct JsonPair {
    /// The serialization key.
    pub key: String,
    /// The projected value.
    pub value: JsonVal,
}

impl View for JsonPair {
    type V = (Seq<char>, JsonValModel);

    open spec fn view(&self) -> (Seq<char>, JsonValModel) {
        (self.key@, self.value@)
    }
}

/// Model of one projected layer: its fields in serialization order.
pub type ObjModel = Seq<(Seq<char>, JsonValModel)>;

/// The value bound to `key`: the first field carrying that key, if any.
pub open spec fn obj_lookup(entries: ObjModel, key: Seq<char>) -> Option<JsonValModel>
    decreases entries.len(),
{
    if entries.len() == 0 {
        None
    } else if entries[0].0 == key {
        Some(entries[0].1)
    } else {
        obj_lookup(entries.subrange(1, entries.len() as int), key)
    }
}

/// The structured projection of one layer: an ordered map of fields. Every
/// declared field of the layer's kind is present, with an explicit null for
/// an absent attribute, so the shape is stable across layers of one kind.
#[derive(Debug, PartialEq)]
pub struct JsonObj {
    /// The fields, in serialization order.
    pub entries: Vec<JsonPair>,
}

/// Relies on `str`'s `==`: two string slices compare equal exactly when they
/// hold the same sequence of characters.
#[verifier::external_body]
fn str_eq(a: &str, b: &str) -> (r: bool)
    ensures
        r == (a@ == b@),
{
    a == b
}

impl JsonObj {
    /// An empty projection.
    pub fn new() -> (r: JsonObj)
        ensures
            r@ == Seq::<(Seq<char>, JsonValModel)>::empty(),
    {
        let r = JsonObj { entries: Vec::new() };
        proof {
            assert(r@ =~= Seq::<(Seq<char>, JsonValModel)>::empty());
        }
        r
    }

    /// The number of fields.
    pub fn len(&self) -> (n: usize)
        ensures
            n == self@.len(),
    {
        self.entries.len()
    }

    /// Appends one field.
    pub fn push(&mut self, key: &str, value: JsonVal)
        ensures
            final(self)@ == old(self)@.push((key@, value@)),
    {
        self.entries.push(JsonPair { key: String::from_str(key), value });
        proof {
            assert(final(self)@ =~= old(self)@.push((key@, value@)));
        }
    }

    /// The value bound to `key`, if the projection holds that field.
    pub fn get(&self, key: &str) -> (r: Option<&JsonVal>)
        ensures
            r matches Some(v) ==> obj_lookup(self@, key@) == Some(v@),
            r is None ==> obj_lookup(self@, key@) is None,
    {
        let n = self.entries.len();
        let mut i: usize = 0;
        proof {
            assert(self@.subrange(0, n as int) =~= self@);
        }
        while i < n
            invariant
                i <= n,
                n == self.entries.len(),
                obj_lookup(self@, key@) == obj_lookup(
                    self@.subrange(i as int, n as int),
                    key@,
                ),
            decreases n - i,
        {
            if str_eq(self.entries[i].key.as_str(), key) {
                proof {
                    assert(self@.subrange(i as int, n as int)[0] == self@[i as int]);
                }
                return Some(&self.entries[i].value);
            }
            proof {
                assert(self@.subrange(i as int, n as int).subrange(
                    1,
                    self@.subrange(i as int, n as int).len() as int,
                ) =~= self@.subrange(i + 1 as int, n as int));
            }
            i = i + 1;
        }
        proof {
            assert(self@.subrange(n as int, n as int) =~= Seq::<(Seq<char>, JsonValModel)>::empty());
        }
        None
    }
}

impl View for JsonObj {
    type V = ObjModel;

    open spec fn view(&self) -> ObjModel {
        self.entries@.map_values(|p: JsonPair| p@)
    }
}

/// One entry of the whole-stack document: the ordinal layer label and the
/// layer's projection.
#[derive(Debug, PartialEq)]
pub struct DocEntry {
    /// The stable ordinal label, `Layer 0` upward, bottom first.
    pub label: String,
    /// The layer's projection.
    pub layer: JsonObj,
}

impl View for DocEntry {
    type V = (Seq<char>, ObjModel);

    open spec fn view(&self) -> (Seq<char>, ObjModel) {
        (self.label@, self.layer@)
    }
}

/// The whole-stack structured document: one entry per layer of the snapshot,
/// keyed by ordinal label, in bottom-to-top order.
#[derive(Debug, PartialEq)]
pub struct JsonDoc {
    /// The per-layer entries, bottom first.
    pub entries: Vec<DocEntry>,
}

impl View for JsonDoc {
    type V = Seq<(Seq<char>, ObjModel)>;

    open spec fn view(&self) -> Seq<(Seq<char>, ObjModel)> {
        self.entries@.map_values(|e: DocEntry| e@)
    }
}

impl JsonDoc {
    /// An empty document.
    pub fn new() -> (r: JsonDoc)
        ensures
            r@ == Seq::<(Seq<char>, ObjModel)>::empty(),
    {
        let r = JsonDoc { entries: Vec::new() };
        proof {
            assert(r@ =~= Seq::<(Seq<char>, ObjModel)>::empty());
        }
        r
    }

    /// Appends one layer's entry.
    pub fn push(&mut self, label: String, layer: JsonObj)
        ensures
            final(self)@ == old(self)@.push((label@, layer@)),
    {
        let ghost l = label@;
        let ghost o = layer@;
        self.entries.push(DocEntry { label, layer });
        proof {
            assert(final(self)@ =~= old(self)@.push((l, o)));
        }
    }
}

} // verus!

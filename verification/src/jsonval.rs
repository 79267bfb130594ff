//! The JSON values this library emits, their mathematical model, and the
//! trusted boundary to the `json` crate's value and object types.

use vstd::prelude::*;

verus! {

/// The mathematical shape of a JSON value this library produces: a piece of
/// text, a boolean flag, or an object of key/value entries in insertion
/// order.
pub enum JsonModel {
    Text(Seq<char>),
    Flag(bool),
    Obj(Seq<(Seq<char>, JsonModel)>),
}

/// A leaf value of the produced JSON object: a piece of text or a boolean
/// flag.
pub enum JsonLeaf {
    Text(String),
    Flag(bool),
}

impl View for JsonLeaf {
    type V = JsonModel;

    open spec fn view(&self) -> JsonModel {
        match self {
            JsonLeaf::Text(s) => JsonModel::Text(s@),
            JsonLeaf::Flag(b) => JsonModel::Flag(*b),
        }
    }
}

/// One key/value entry of the produced JSON object.
pub struct JsonEntry {
    pub key: String,
    pub value: JsonLeaf,
}

impl View for JsonEntry {
    type V = (Seq<char>, JsonModel);

    open spec fn view(&self) -> (Seq<char>, JsonModel) {
        (self.key@, self.value@)
    }
}

#[verifier::external_type_specification]
#[verifier::external_body]
pub struct ExJsonValue(json::JsonValue);

#[verifier::external_type_specification]
#[verifier::external_body]
pub struct ExObject(json::object::Object);

/// What a `json::JsonValue` holds, as a model value.
pub uninterp spec fn value_model(v: json::JsonValue) -> JsonModel;

/// What a `json::object::Object` holds: its key/value entries in iteration
/// order.
pub uninterp spec fn object_model(m: json::object::Object) -> Seq<(Seq<char>, JsonModel)>;

/// Relies on json::object::Object::new: the new object holds no entries.
#[verifier::external_body]
fn object_new() -> (m: json::object::Object)
    ensures
        object_model(m) == Seq::<(Seq<char>, JsonModel)>::empty(),
{
    json::object::Object::new()
}

/// Relies on json::object::Object::insert: a key that is not yet present is
/// appended, with its value, at the end of the iteration order.
#[verifier::external_body]
fn object_insert(m: &mut json::object::Object, key: &str, v: json::JsonValue)
    requires
        forall|i: int|
            0 <= i < object_model(*old(m)).len() ==> (#[trigger] object_model(*old(m))[i]).0
                != key@,
    ensures
        object_model(*final(m)) == object_model(*old(m)).push((key@, value_model(v))),
{
    m.insert(key, v)
}

/// Relies on json::JsonValue::String: the value holds exactly the given
/// text.
#[verifier::external_body]
pub(crate) fn value_from_string(s: String) -> (v: json::JsonValue)
    ensures
        value_model(v) == JsonModel::Text(s@),
{
    json::JsonValue::String(s)
}

/// Relies on json::JsonValue::Boolean: the value holds exactly the given
/// flag.
#[verifier::external_body]
fn value_from_bool(b: bool) -> (v: json::JsonValue)
    ensures
        value_model(v) == JsonModel::Flag(b),
{
    json::JsonValue::Boolean(b)
}

/// Relies on json::JsonValue::Object: the value holds exactly the given
/// object.
#[verifier::external_body]
fn value_from_object(m: json::object::Object) -> (v: json::JsonValue)
    ensures
        value_model(v) == JsonModel::Obj(object_model(m)),
{
    json::JsonValue::Object(m)
}

/// Turns one produced leaf into the `json` crate's value for it.
pub fn leaf_to_value(l: &JsonLeaf) -> (v: json::JsonValue)
    ensures
        value_model(v) == l@,
{
    match l {
        JsonLeaf::Text(s) => value_from_string(s.clone()),
        JsonLeaf::Flag(b) => value_from_bool(*b),
    }
}

/// Builds the `json` crate's object value holding exactly the given
/// entries, in their order. The keys must be pairwise distinct, as the
/// entries this library produces are.
pub fn object_from_entries(entries: &Vec<JsonEntry>) -> (v: json::JsonValue)
    requires
        forall|i: int, j: int|
            0 <= i < j < entries@.len() ==> (#[trigger] entries@[i]).key@ != (
            #[trigger] entries@[j]).key@,
    ensures
        value_model(v) == JsonModel::Obj(entries@.map_values(|e: JsonEntry| e@)),
{
    let mut obj = object_new();
    let mut i: usize = 0;
    while i < entries.len()
        invariant
            0 <= i <= entries@.len(),
            object_model(obj) == entries@.take(i as int).map_values(|e: JsonEntry| e@),
            forall|p: int, q: int|
                0 <= p < q < entries@.len() ==> (#[trigger] entries@[p]).key@ != (
                #[trigger] entries@[q]).key@,
        decreases entries@.len() - i,
    {
        let e = &entries[i];
        let v = leaf_to_value(&e.value);
        proof {
            assert forall|k: int| 0 <= k < object_model(obj).len() implies (
            #[trigger] object_model(obj)[k]).0 != e.key@ by {
                assert(object_model(obj)[k] == entries@.take(i as int).map_values(
                    |en: JsonEntry| en@,
                )[k]);
                assert(object_model(obj)[k].0 == entries@[k].key@);
            }
        }
        object_insert(&mut obj, e.key.as_str(), v);
        proof {
            assert(entries@.take(i + 1 as int).map_values(|en: JsonEntry| en@) =~= entries@.take(
                i as int,
            ).map_values(|en: JsonEntry| en@).push((e.key@, e.value@)));
        }
        i = i + 1;
    }
    proof {
        assert(entries@.take(entries@.len() as int) =~= entries@);
    }
    value_from_object(obj)
}

} // verus!

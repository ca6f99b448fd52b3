use vstd::prelude::*;

verus! {

/// Mathematical model of a JSON document.
///
/// Numbers are split into exact unsigned integers, the only numeric shape
/// the manifest format uses, and all other numbers, which the decoders
/// uniformly reject.
pub ghost enum JsonData {
    Null,
    Bool(bool),
    UInt(u64),
    OtherNum,
    Str(Seq<char>),
    Arr(Seq<JsonData>),
    Obj(Map<Seq<char>, JsonData>),
}

pub open spec fn obj_map(d: JsonData) -> Map<Seq<char>, JsonData>
    recommends
        d is Obj,
{
    d->Obj_0
}

/// Declares serde_json::Value, the parsed JSON tree; opaque here, modeled
/// by `json_model`.
#[verifier::external_type_specification]
#[verifier::external_body]
pub struct ExValue(serde_json::Value);

/// The JSON document a `serde_json::Value` holds.
pub uninterp spec fn json_model(v: serde_json::Value) -> JsonData;

/// What serde_json's text parser yields on the given text; `None` when the
/// text does not parse.
pub uninterp spec fn json_parse(s: Seq<char>) -> Option<JsonData>;

pub open spec fn models_of(s: Seq<serde_json::Value>) -> Seq<JsonData> {
    s.map_values(|x: serde_json::Value| json_model(x))
}

/// Relies on serde_json::from_str::<Value>: parses JSON text; whether it
/// parses and what it parses to are functions of the text alone.
#[verifier::external_body]
pub(crate) fn json_from_str(s: &str) -> (r: Option<serde_json::Value>)
    ensures
        r is Some <==> json_parse(s@) is Some,
        r matches Some(v) ==> (json_parse(s@) matches Some(d) && json_model(v) == d),
{
    serde_json::from_str::<serde_json::Value>(s).ok()
}

/// Relies on serde_json::Value::is_null.
#[verifier::external_body]
pub(crate) fn json_is_null(v: &serde_json::Value) -> (r: bool)
    ensures
        r == (json_model(*v) is Null),
{
    v.is_null()
}

/// Relies on serde_json::Value::as_str: `Some` exactly on JSON strings.
#[verifier::external_body]
pub(crate) fn json_as_str<'a>(v: &'a serde_json::Value) -> (r: Option<&'a str>)
    ensures
        r is Some <==> json_model(*v) is Str,
        r matches Some(s) ==> json_model(*v) == JsonData::Str(s@),
{
    v.as_str()
}

/// Relies on serde_json::Value::as_u64: `Some` exactly on numbers with an
/// exact unsigned 64-bit value.
#[verifier::external_body]
pub(crate) fn json_as_u64(v: &serde_json::Value) -> (r: Option<u64>)
    ensures
        r is Some <==> json_model(*v) is UInt,
        r matches Some(n) ==> json_model(*v) == JsonData::UInt(n),
{
    v.as_u64()
}

/// Relies on serde_json::Value::as_array.
#[verifier::external_body]
pub(crate) fn json_as_array<'a>(v: &'a serde_json::Value) -> (r: Option<
    &'a Vec<serde_json::Value>,
>)
    ensures
        r is Some <==> json_model(*v) is Arr,
        r matches Some(a) ==> json_model(*v) == JsonData::Arr(models_of(a@)),
{
    v.as_array()
}

/// Relies on serde_json::Value::get with a string index: looks a key up in
/// a JSON object; `None` on any other kind of value or an absent key.
#[verifier::external_body]
pub(crate) fn json_get<'a>(v: &'a serde_json::Value, key: &str) -> (r: Option<
    &'a serde_json::Value,
>)
    ensures
        r is Some <==> (json_model(*v) is Obj && obj_map(json_model(*v)).dom().contains(key@)),
        r matches Some(x) ==> json_model(*x) == obj_map(json_model(*v))[key@],
{
    v.get(key)
}

/// Relies on serde_json::Value::as_object and serde_json::Map::keys: on a
/// JSON object, yields each of its keys.
#[verifier::external_body]
pub(crate) fn json_object_keys(v: &serde_json::Value) -> (r: Option<Vec<String>>)
    ensures
        r is Some <==> json_model(*v) is Obj,
        r matches Some(ks) ==> forall|i: int|
            0 <= i < ks@.len() ==> obj_map(json_model(*v)).dom().contains(#[trigger] ks@[i]@),
        r matches Some(ks) ==> forall|k: Seq<char>|
            #[trigger] obj_map(json_model(*v)).dom().contains(k) ==> exists|i: int|
                0 <= i < ks@.len() && #[trigger] ks@[i]@ == k,
{
    match v.as_object() {
        Some(m) => Some(m.keys().cloned().collect()),
        None => None,
    }
}

/// Relies on the serde_json::Value::String constructor.
#[verifier::external_body]
pub(crate) fn json_of_string(s: String) -> (r: serde_json::Value)
    ensures
        json_model(r) == JsonData::Str(s@),
{
    serde_json::Value::String(s)
}

/// Relies on serde_json::Number::from(u64): an unsigned integer number.
#[verifier::external_body]
pub(crate) fn json_of_u64(n: u64) -> (r: serde_json::Value)
    ensures
        json_model(r) == JsonData::UInt(n),
{
    serde_json::Value::Number(serde_json::Number::from(n))
}

/// Relies on the serde_json::Value::Array constructor.
#[verifier::external_body]
pub(crate) fn json_of_array(items: Vec<serde_json::Value>) -> (r: serde_json::Value)
    ensures
        json_model(r) == JsonData::Arr(models_of(items@)),
{
    serde_json::Value::Array(items)
}

pub open spec fn pairs_view(s: Seq<(String, serde_json::Value)>) -> Seq<(Seq<char>, JsonData)> {
    s.map_values(|p: (String, serde_json::Value)| (p.0@, json_model(p.1)))
}

/// The object an entry list builds: pairs inserted left to right, a later
/// duplicate key overwriting an earlier one.
pub open spec fn obj_map_of_pairs(s: Seq<(Seq<char>, JsonData)>) -> Map<Seq<char>, JsonData>
    decreases s.len(),
{
    if s.len() == 0 {
        Map::empty()
    } else {
        obj_map_of_pairs(s.drop_last()).insert(s.last().0, s.last().1)
    }
}

/// Relies on serde_json::Map's FromIterator over (String, Value): inserts
/// the pairs in order, a later duplicate key overwriting an earlier one.
#[verifier::external_body]
pub(crate) fn json_of_object(entries: Vec<(String, serde_json::Value)>) -> (r: serde_json::Value)
    ensures
        json_model(r) == JsonData::Obj(obj_map_of_pairs(pairs_view(entries@))),
{
    serde_json::Value::Object(entries.into_iter().collect())
}

} // verus!

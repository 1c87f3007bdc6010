//! An owned JSON value model.
//!
//! Extension metadata arrives as JSON text.  The text is parsed by serde_json
//! behind a trusted boundary; everything after that point works on the plain
//! [`JsonValue`] tree below, so the decoding rules themselves are verified.

use vstd::prelude::*;

verus! {

/// A JSON value held as plain data.
///
/// Numbers that fit a signed 64-bit integer are held as `Int`; any other
/// numeric literal is carried verbatim as its decimal text in `Num`, so that a
/// definition that contains one can still be round-tripped without this crate
/// ever holding a floating-point value.
pub enum JsonValue {
    Null,
    Bool(bool),
    Int(i64),
    Num(String),
    Text(String),
    Array(Vec<JsonValue>),
    Object(Vec<(String, JsonValue)>),
}

/// The mathematical shape of a [`JsonValue`]: the same tree over `Seq` and `int`.
pub enum JsonModel {
    Null,
    Bool(bool),
    Int(int),
    Num(Seq<char>),
    Text(Seq<char>),
    Array(Seq<JsonModel>),
    Object(Seq<(Seq<char>, JsonModel)>),
}

impl JsonValue {
    /// The abstract tree this value stands for.
    pub open spec fn dview(self) -> JsonModel
        decreases self,
    {
        match self {
            JsonValue::Null => JsonModel::Null,
            JsonValue::Bool(b) => JsonModel::Bool(b),
            JsonValue::Int(i) => JsonModel::Int(i as int),
            JsonValue::Num(s) => JsonModel::Num(s@),
            JsonValue::Text(s) => JsonModel::Text(s@),
            JsonValue::Array(a) => JsonModel::Array(dview_elems(a@)),
            JsonValue::Object(m) => JsonModel::Object(dview_members(m@)),
        }
    }
}

/// Element-wise abstraction of a sequence of JSON values.
pub open spec fn dview_elems(s: Seq<JsonValue>) -> Seq<JsonModel>
    decreases s,
{
    if s.len() == 0 {
        Seq::empty()
    } else {
        dview_elems(s.drop_last()).push(s.last().dview())
    }
}

/// Member-wise abstraction of a sequence of JSON object members.
pub open spec fn dview_members(s: Seq<(String, JsonValue)>) -> Seq<(Seq<char>, JsonModel)>
    decreases s,
{
    if s.len() == 0 {
        Seq::empty()
    } else {
        dview_members(s.drop_last()).push((s.last().0@, s.last().1.dview()))
    }
}

/// The value under `key` among object members, first match first.
pub open spec fn lookup(pairs: Seq<(Seq<char>, JsonModel)>, key: Seq<char>) -> Option<JsonModel>
    decreases pairs.len(),
{
    if pairs.len() == 0 {
        None
    } else if pairs[0].0 == key {
        Some(pairs[0].1)
    } else {
        lookup(pairs.drop_first(), key)
    }
}

/// `dview_members` is the member-wise image of its argument.
pub proof fn lemma_dview_members_index(s: Seq<(String, JsonValue)>)
    ensures
        dview_members(s).len() == s.len(),
        forall|i: int|
            0 <= i < s.len() ==> #[trigger] dview_members(s)[i] == (s[i].0@, s[i].1.dview()),
    decreases s.len(),
{
    if s.len() > 0 {
        lemma_dview_members_index(s.drop_last());
        assert(forall|i: int|
            0 <= i < s.len() - 1 ==> #[trigger] s.drop_last()[i] == s[i]);
    }
}

/// Where the first `i` members miss the key and member `i` carries it,
/// lookup yields member `i`'s value.
pub proof fn lemma_lookup_at(pairs: Seq<(Seq<char>, JsonModel)>, key: Seq<char>, i: int)
    requires
        0 <= i < pairs.len(),
        pairs[i].0 == key,
        forall|j: int| 0 <= j < i ==> pairs[j].0 != key,
    ensures
        lookup(pairs, key) == Some(pairs[i].1),
    decreases i,
{
    if i > 0 {
        lemma_lookup_at(pairs.drop_first(), key, i - 1);
    }
}

/// Where no member carries the key, lookup yields nothing.
pub proof fn lemma_lookup_none(pairs: Seq<(Seq<char>, JsonModel)>, key: Seq<char>)
    requires
        forall|j: int| 0 <= j < pairs.len() ==> pairs[j].0 != key,
    ensures
        lookup(pairs, key) is None,
    decreases pairs.len(),
{
    if pairs.len() > 0 {
        lemma_lookup_none(pairs.drop_first(), key);
    }
}

/// The member of an object-shaped model under `key`; nothing on any other
/// shape, which carries no members at all.
pub open spec fn jlookup(m: JsonModel, key: Seq<char>) -> Option<JsonModel> {
    match m {
        JsonModel::Object(pairs) => lookup(pairs, key),
        _ => None,
    }
}

/// The position of the first member of `pairs` under `key`, if any.
pub fn obj_find(pairs: &Vec<(String, JsonValue)>, key: &str) -> (r: Option<usize>)
    ensures
        match r {
            Some(i) => i < pairs@.len() && pairs@[i as int].0@ == key@ && lookup(
                dview_members(pairs@),
                key@,
            ) == Some(pairs@[i as int].1.dview()),
            None => lookup(dview_members(pairs@), key@) is None,
        },
{
    let n = pairs.len();
    let mut i: usize = 0;
    while i < n
        invariant
            0 <= i <= n,
            n == pairs@.len(),
            forall|j: int| 0 <= j < i ==> #[trigger] pairs@[j].0@ != key@,
        decreases n - i,
    {
        let p = &pairs[i];
        if crate::strings::str_eq(p.0.as_str(), key) {
            proof {
                lemma_dview_members_index(pairs@);
                lemma_lookup_at(dview_members(pairs@), key@, i as int);
            }
            return Some(i);
        }
        i = i + 1;
    }
    proof {
        lemma_dview_members_index(pairs@);
        lemma_lookup_none(dview_members(pairs@), key@);
    }
    None
}

/// The member of `pairs` under `key`, if any; the first match wins.
pub fn obj_get<'a>(pairs: &'a Vec<(String, JsonValue)>, key: &str) -> (r: Option<&'a JsonValue>)
    ensures
        match r {
            Some(v) => lookup(dview_members(pairs@), key@) == Some(v.dview()),
            None => lookup(dview_members(pairs@), key@) is None,
        },
{
    match obj_find(pairs, key) {
        Some(i) => Some(&pairs[i].1),
        None => None,
    }
}

/// What serde_json's parser yields on this text: the parsed value's shape,
/// or nothing when the text is not JSON.
pub uninterp spec fn json_of(s: Seq<char>) -> Option<JsonModel>;

/// The text serde_json prints for a value of this shape.
pub uninterp spec fn json_text_of(v: JsonModel) -> Seq<char>;

#[verifier::external_type_specification]
#[verifier::external_body]
pub struct ExSerdeValue(serde_json::Value);

/// Carries a parsed serde_json tree over into the plain value model.
#[verifier::external_body]
fn from_serde(v: &serde_json::Value) -> JsonValue {
    match v {
        serde_json::Value::Null => JsonValue::Null,
        serde_json::Value::Bool(b) => JsonValue::Bool(*b),
        serde_json::Value::Number(n) => match n.as_i64() {
            Some(i) => JsonValue::Int(i),
            None => JsonValue::Num(n.to_string()),
        },
        serde_json::Value::String(s) => JsonValue::Text(s.clone()),
        serde_json::Value::Array(a) => JsonValue::Array(a.iter().map(from_serde).collect()),
        serde_json::Value::Object(m) => JsonValue::Object(
            m.iter().map(|(k, x)| (k.clone(), from_serde(x))).collect(),
        ),
    }
}

/// Carries a plain value over into a serde_json tree.
#[verifier::external_body]
fn to_serde(v: &JsonValue) -> serde_json::Value {
    match v {
        JsonValue::Null => serde_json::Value::Null,
        JsonValue::Bool(b) => serde_json::Value::Bool(*b),
        JsonValue::Int(i) => serde_json::Value::from(*i),
        JsonValue::Num(s) => match s.parse::<serde_json::Number>() {
            Ok(n) => serde_json::Value::Number(n),
            Err(_) => serde_json::Value::String(s.clone()),
        },
        JsonValue::Text(s) => serde_json::Value::String(s.clone()),
        JsonValue::Array(a) => serde_json::Value::Array(a.iter().map(to_serde).collect()),
        JsonValue::Object(m) => serde_json::Value::Object(
            m.iter().map(|(k, x)| (k.clone(), to_serde(x))).collect(),
        ),
    }
}

/// Relies on serde_json::from_str: decides whether `s` is JSON text and, when
/// it is, yields the parsed value.
#[verifier::external_body]
pub(crate) fn parse_json_text(s: &str) -> (r: Option<JsonValue>)
    ensures
        r matches Some(v) ==> json_of(s@) == Some(v.dview()),
        r is None ==> json_of(s@) is None,
{
    match serde_json::from_str::<serde_json::Value>(s) {
        Ok(v) => Some(from_serde(&v)),
        Err(_) => None,
    }
}

/// Relies on serde_json::to_string: the printed text depends on the value
/// alone, so it is named by `json_text_of`.
#[verifier::external_body]
pub(crate) fn json_to_text(v: &JsonValue) -> (r: String)
    ensures
        r@ == json_text_of(v.dview()),
{
    serde_json::to_string(&to_serde(v)).unwrap_or_default()
}

} // verus!

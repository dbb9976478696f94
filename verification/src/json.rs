//! A plain model of JSON documents.
//!
//! The service answers every request with a JSON body. The library holds such
//! a body as [`Json`], a tree of plain values, so that the status branch and
//! the decoding of the typed responses are ordinary verified code. Only the
//! parse itself — bytes to tree — is delegated to an outside crate, behind
//! one trusted wrapper.
use vstd::prelude::*;

verus! {

broadcast use vstd::std_specs::vec::group_vec_axioms, vstd::seq::group_seq_axioms;

/// A JSON document as plain data.
#[derive(Debug, PartialEq, Eq)]
pub enum Json {
    /// JSON `null`.
    Null,
    /// A JSON boolean.
    Bool(bool),
    /// A JSON number. `None` stands for a number outside the `i64` range,
    /// which no numeric field of the service's responses may hold: reading
    /// such a number as an integer field fails, anywhere else it is ignored.
    Num(Option<i64>),
    /// A JSON string.
    Str(String),
    /// A JSON array.
    Arr(Vec<Json>),
    /// A JSON object: its members in order, each a key and a value.
    Obj(Vec<(String, Json)>),
}

/// The mathematical value of a [`Json`] tree.
pub ghost enum JsonVal {
    Null,
    Bool(bool),
    Num(Option<i64>),
    Str(Seq<char>),
    Arr(Seq<JsonVal>),
    Obj(Seq<(Seq<char>, JsonVal)>),
}

/// The mathematical value of a [`Json`] tree; [`Json`]'s view.
pub open spec fn json_view(j: Json) -> JsonVal
    decreases j,
{
    match j {
        Json::Null => JsonVal::Null,
        Json::Bool(b) => JsonVal::Bool(b),
        Json::Num(n) => JsonVal::Num(n),
        Json::Str(s) => JsonVal::Str(s@),
        Json::Arr(a) => JsonVal::Arr(
            Seq::new(
                a@.len(),
                |i: int| if 0 <= i < a@.len() {
                    json_view(a@[i])
                } else {
                    JsonVal::Null
                },
            ),
        ),
        Json::Obj(m) => JsonVal::Obj(
            Seq::new(
                m@.len(),
                |i: int| if 0 <= i < m@.len() {
                    (m@[i].0@, json_view(m@[i].1))
                } else {
                    (Seq::empty(), JsonVal::Null)
                },
            ),
        ),
    }
}

impl View for Json {
    type V = JsonVal;

    open spec fn view(&self) -> JsonVal {
        json_view(*self)
    }
}

/// The views of the elements of a sequence of documents.
pub open spec fn jsons_view(s: Seq<Json>) -> Seq<JsonVal> {
    Seq::new(s.len(), |i: int| json_view(s[i]))
}

/// An array document's view is the array of its elements' views.
pub proof fn lemma_arr_view(j: Json, a: Vec<Json>)
    requires
        j == Json::Arr(a),
    ensures
        json_view(j) == JsonVal::Arr(jsons_view(a@)),
{
    assert(json_view(j)->Arr_0 =~= jsons_view(a@));
}

/// The value under the first member of `m` whose key is `k`, if any.
pub open spec fn spec_obj_get(m: Seq<(Seq<char>, JsonVal)>, k: Seq<char>) -> Option<JsonVal>
    decreases m.len(),
{
    if m.len() == 0 {
        None
    } else if m[0].0 == k {
        Some(m[0].1)
    } else {
        spec_obj_get(m.drop_first(), k)
    }
}

impl JsonVal {
    /// The value of the member named `k`: `None` when the document is not an
    /// object or has no such member.
    pub open spec fn field(self, k: Seq<char>) -> Option<JsonVal> {
        match self {
            JsonVal::Obj(m) => spec_obj_get(m, k),
            _ => None,
        }
    }
}

/// `serde_json`'s document type, declared so that the trusted converter below
/// can take it; nothing of it is visible to verified code.
#[verifier::external_type_specification]
#[verifier::external_body]
pub struct ExValue(serde_json::Value);

/// What `serde_json::from_slice::<serde_json::Value>` makes of the bytes,
/// carried over to [`JsonVal`]: `None` when they are not well-formed JSON.
/// The parse depends on the bytes alone.
pub uninterp spec fn json_parse(bytes: Seq<u8>) -> Option<JsonVal>;

/// Relies on `serde_json::Value`: each variant of the parsed document is
/// carried over one for one; a number is kept when `Number::as_i64` accepts
/// it and remembered as out of range otherwise.
#[verifier::external_body]
fn value_to_json(v: serde_json::Value) -> (r: Json) {
    match v {
        serde_json::Value::Null => Json::Null,
        serde_json::Value::Bool(b) => Json::Bool(b),
        serde_json::Value::Number(n) => Json::Num(n.as_i64()),
        serde_json::Value::String(s) => Json::Str(s),
        serde_json::Value::Array(a) => Json::Arr(a.into_iter().map(value_to_json).collect()),
        serde_json::Value::Object(m) => Json::Obj(
            m.into_iter().map(|(k, w)| (k, value_to_json(w))).collect(),
        ),
    }
}

/// Relies on `serde_json::from_slice`: whether the bytes are well-formed JSON,
/// and the document they hold, depend on the bytes alone.
#[verifier::external_body]
pub(crate) fn parse_json(bytes: &[u8]) -> (r: Option<Json>)
    ensures
        r matches Some(j) ==> json_parse(bytes@) == Some(j@),
        r is None ==> json_parse(bytes@) is None,
{
    match serde_json::from_slice::<serde_json::Value>(bytes) {
        Ok(v) => Some(value_to_json(v)),
        Err(_) => None,
    }
}

impl Json {
    /// Look up the member named `key` of an object document. Mirrors
    /// [`JsonVal::field`] on the view.
    pub fn field<'a>(&'a self, key: &String) -> (r: Option<&'a Json>)
        ensures
            match r {
                Some(f) => self@.field(key@) == Some(f@),
                None => self@.field(key@) is None,
            },
    {
        match self {
            Json::Obj(members) => {
                let ghost mv = self@->Obj_0;
                proof {
                    assert(self@ is Obj);
                    assert(self@->Obj_0.len() == members@.len());
                    assert(forall|k: int| 0 <= k < members@.len()
                        ==> self@->Obj_0[k] == (members@[k].0@, members@[k].1@));
                    assert(mv.skip(0) =~= mv);
                }
                let mut i: usize = 0;
                while i < members.len()
                    invariant
                        0 <= i <= members@.len(),
                        self@ == JsonVal::Obj(mv),
                        mv.len() == members@.len(),
                        forall|k: int| 0 <= k < mv.len() ==> mv[k] == (members@[k].0@, members@[k].1@),
                        spec_obj_get(mv, key@) == spec_obj_get(mv.skip(i as int), key@),
                    decreases members@.len() - i,
                {
                    if members[i].0 == *key {
                        assert(mv.skip(i as int)[0] == mv[i as int]);
                        return Some(&members[i].1);
                    }
                    proof {
                        assert(mv.skip(i as int)[0] == mv[i as int]);
                        assert(mv.skip(i as int).drop_first() =~= mv.skip(i + 1));
                    }
                    i = i + 1;
                }
                proof {
                    assert(mv.skip(i as int) =~= Seq::<(Seq<char>, JsonVal)>::empty());
                }
                None
            },
            _ => None,
        }
    }
}

} // verus!

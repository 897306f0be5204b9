//! The JSON values the machine rendering produces, and their
//! mathematical model.

use vstd::prelude::*;
use vstd::string::StringExecFns;

verus! {

broadcast use vstd::std_specs::vec::group_vec_axioms;

/// A JSON document value, the shape of the machine rendering's output.
/// Every numeric field of the machine document is a count, so numbers
/// are unsigned integers. Object fields keep the order they were
/// inserted in.
#[derive(Debug)]
pub enum Json {
    Null,
    Bool(bool),
    UInt(u64),
    Str(String),
    Arr(Vec<Json>),
    Obj(Vec<(String, Json)>),
}

/// The mathematical model of a JSON value: strings become character
/// sequences, arrays and objects become sequences.
#[verifier::ext_equal]
pub enum Jv {
    Null,
    Bool(bool),
    UInt(u64),
    Str(Seq<char>),
    Arr(Seq<Jv>),
    Obj(Seq<(Seq<char>, Jv)>),
}

pub open spec fn jv(j: Json) -> Jv
    decreases j,
{
    match j {
        Json::Null => Jv::Null,
        Json::Bool(b) => Jv::Bool(b),
        Json::UInt(n) => Jv::UInt(n),
        Json::Str(s) => Jv::Str(s@),
        Json::Arr(items) => Jv::Arr(
            Seq::new(
                items@.len(),
                |i: int|
                    if 0 <= i < items@.len() {
                        jv(items[i])
                    } else {
                        Jv::Null
                    },
            ),
        ),
        Json::Obj(fields) => Jv::Obj(
            Seq::new(
                fields@.len(),
                |i: int|
                    if 0 <= i < fields@.len() {
                        (fields[i].0@, jv(fields[i].1))
                    } else {
                        (Seq::empty(), Jv::Null)
                    },
            ),
        ),
    }
}

impl View for Json {
    type V = Jv;

    open spec fn view(&self) -> Jv {
        jv(*self)
    }
}

/// The value of the field named `key`, if any; with a duplicated key
/// the last field wins, as it does for a JSON reader.
pub open spec fn obj_fields_get(fields: Seq<(Seq<char>, Jv)>, key: Seq<char>) -> Option<Jv>
    decreases fields.len(),
{
    if fields.len() == 0 {
        None
    } else if fields.last().0 == key {
        Some(fields.last().1)
    } else {
        obj_fields_get(fields.drop_last(), key)
    }
}

/// Field lookup on a JSON value: `None` unless the value is an object
/// with a field of that name.
pub open spec fn jv_get(j: Jv, key: Seq<char>) -> Option<Jv> {
    match j {
        Jv::Obj(fields) => obj_fields_get(fields, key),
        _ => None,
    }
}

/// The models of a sequence of JSON values.
pub open spec fn jv_seq(items: Seq<Json>) -> Seq<Jv> {
    items.map_values(|j: Json| jv(j))
}

/// The models of a sequence of JSON object fields.
pub open spec fn jv_fields(fields: Seq<(String, Json)>) -> Seq<(Seq<char>, Jv)> {
    fields.map_values(|kv: (String, Json)| (kv.0@, jv(kv.1)))
}

/// A string value, `Null` when absent.
pub open spec fn jv_opt_str(s: Option<Seq<char>>) -> Jv {
    match s {
        Some(t) => Jv::Str(t),
        None => Jv::Null,
    }
}

/// The character sequences of an optional string.
pub open spec fn opt_chars(s: Option<String>) -> Option<Seq<char>> {
    match s {
        Some(t) => Some(t@),
        None => None,
    }
}

pub fn j_str(s: &str) -> (r: Json)
    ensures
        r@ == Jv::Str(s@),
{
    Json::Str(String::from_str(s))
}

pub fn j_string(s: String) -> (r: Json)
    ensures
        r@ == Jv::Str(s@),
{
    Json::Str(s)
}

/// Clones the string (our renderers take their input by reference).
pub fn j_str_ref(s: &String) -> (r: Json)
    ensures
        r@ == Jv::Str(s@),
{
    Json::Str(s.clone())
}

pub fn j_opt_str_ref(s: &Option<String>) -> (r: Json)
    ensures
        r@ == jv_opt_str(opt_chars(*s)),
{
    match s {
        Some(t) => Json::Str(t.clone()),
        None => Json::Null,
    }
}

pub fn j_arr(items: Vec<Json>) -> (r: Json)
    ensures
        r@ == Jv::Arr(jv_seq(items@)),
{
    let ghost gi = items@;
    let r = Json::Arr(items);
    proof {
        assert(jv(r)->Arr_0 =~= jv_seq(gi));
        assert(jv(r) == Jv::Arr(jv_seq(gi)));
    }
    r
}

pub fn j_obj(fields: Vec<(String, Json)>) -> (r: Json)
    ensures
        r@ == Jv::Obj(jv_fields(fields@)),
{
    let ghost gf = fields@;
    let r = Json::Obj(fields);
    proof {
        assert(jv(r)->Obj_0 =~= jv_fields(gf));
        assert(jv(r) == Jv::Obj(jv_fields(gf)));
    }
    r
}

} // verus!

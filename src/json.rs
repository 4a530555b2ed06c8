//! Decoded JSON documents, as the scripting host and the profiling utility emit them.
use vstd::prelude::*;
use crate::text::text_is;

verus! {

/// A JSON document. A number keeps its text, and its value where that is an
/// unsigned 64-bit integer.
pub enum Json {
    Null,
    Bool(bool),
    Number(Option<u64>, String),
    Str(String),
    Array(Vec<Json>),
    Object(Vec<Member>),
}

/// One key of an object and its value.
pub struct Member {
    pub key: String,
    pub value: Json,
}

#[verifier::external_type_specification]
#[verifier::external_body]
pub struct ExValue(serde_json::Value);

/// The document a text decodes to, or `None` where it is not JSON.
pub uninterp spec fn json_decoded(s: Seq<char>) -> Option<Json>;

/// Characters that stand in a JSON string as themselves.
pub open spec fn plain_text(x: Seq<char>) -> bool {
    forall|i: int| 0 <= i < x.len() ==> #[trigger] x[i] != '"' && x[i] != '\\' && x[i] as u32 >= 0x20
}

/// `x` between double quotes.
pub open spec fn quoted(x: Seq<char>) -> Seq<char> {
    seq!['"'] + x + seq!['"']
}

/// `x` between square brackets.
pub open spec fn bracketed(x: Seq<char>) -> Seq<char> {
    seq!['['] + x + seq![']']
}

/// Whether `s` is `["x"]` for some plain `x`.
pub open spec fn is_plain_single_array(s: Seq<char>) -> bool {
    &&& s.len() >= 4
    &&& s == bracketed(quoted(s.subrange(2, s.len() - 2)))
    &&& plain_text(s.subrange(2, s.len() - 2))
}

/// Whether `j` is an array that holds one string, `x`.
pub open spec fn is_single_string(j: Json, x: Seq<char>) -> bool {
    match j {
        Json::Array(a) => a@.len() == 1 && (match a@[0] {
            Json::Str(t) => t@ == x,
            _ => false,
        }),
        _ => false,
    }
}

/// Carries a decoded `serde_json::Value` over, node by node.
#[verifier::external_body]
fn from_value(v: serde_json::Value) -> Json {
    match v {
        serde_json::Value::Null => Json::Null,
        serde_json::Value::Bool(b) => Json::Bool(b),
        serde_json::Value::Number(n) => Json::Number(n.as_u64(), n.to_string()),
        serde_json::Value::String(s) => Json::Str(s),
        serde_json::Value::Array(a) => Json::Array(a.into_iter().map(from_value).collect()),
        serde_json::Value::Object(m) => Json::Object(
            m.into_iter().map(|(key, value)| Member { key, value: from_value(value) }).collect(),
        ),
    }
}

/// Relies on `serde_json::from_str::<serde_json::Value>`: whether a text is
/// JSON and what it decodes to depend on the text alone; the error is the
/// decoder's message. A one-element array of a plain string decodes to that.
#[verifier::external_body]
pub(crate) fn decode_json(s: &str) -> (r: Result<Json, String>)
    ensures
        r is Ok <==> json_decoded(s@) is Some,
        r is Ok ==> json_decoded(s@) == Some(r->Ok_0),
        is_plain_single_array(s@) ==> r is Ok && is_single_string(
            r->Ok_0,
            s@.subrange(2, s@.len() - 2),
        ),
{
    match serde_json::from_str::<serde_json::Value>(s) {
        Ok(v) => Ok(from_value(v)),
        Err(e) => Err(e.to_string()),
    }
}

/// The value under key `k` among an object's members: the first that matches.
pub open spec fn member_of(ms: Seq<Member>, k: Seq<char>) -> Option<Json>
    decreases ms.len(),
{
    if ms.len() == 0 {
        None
    } else if ms[0].key@ == k {
        Some(ms[0].value)
    } else {
        member_of(ms.drop_first(), k)
    }
}

/// The value under key `k`, where `v` is an object that has it.
pub open spec fn field(v: Json, k: Seq<char>) -> Option<Json> {
    match v {
        Json::Object(ms) => member_of(ms@, k),
        _ => None,
    }
}

/// Looks up key `k` in an object.
pub fn get_field<'a>(v: &'a Json, k: &str) -> (r: Option<&'a Json>)
    ensures
        match r {
            Some(x) => field(*v, k@) == Some(*x),
            None => field(*v, k@) is None,
        },
{
    match v {
        Json::Object(ms) => {
            let mut i: usize = 0;
            assert(ms@.subrange(0, ms@.len() as int) =~= ms@);
            while i < ms.len()
                invariant
                    i <= ms@.len(),
                    field(*v, k@) == member_of(ms@, k@),
                    member_of(ms@, k@) == member_of(ms@.subrange(i as int, ms@.len() as int), k@),
                decreases ms@.len() - i,
            {
                let ghost rest = ms@.subrange(i as int, ms@.len() as int);
                assert(rest[0] == ms@[i as int]);
                if text_is(ms[i].key.as_str(), k) {
                    return Some(&ms[i].value);
                }
                assert(rest.drop_first() =~= ms@.subrange(i + 1, ms@.len() as int));
                i = i + 1;
            }
            None
        },
        _ => None,
    }
}

/// The first element, where `v` is a non-empty array.
pub open spec fn first_item(v: Json) -> Option<Json> {
    match v {
        Json::Array(a) => if a@.len() > 0 {
            Some(a@[0])
        } else {
            None
        },
        _ => None,
    }
}

pub fn get_first(v: &Json) -> (r: Option<&Json>)
    ensures
        match r {
            Some(x) => first_item(*v) == Some(*x),
            None => first_item(*v) is None,
        },
{
    match v {
        Json::Array(a) => if a.len() > 0 {
            Some(&a[0])
        } else {
            None
        },
        _ => None,
    }
}

} // verus!

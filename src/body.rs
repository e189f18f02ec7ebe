//! The JSON text of a partial update: a one-entry object whose key is the
//! property's name. Text values are quoted and escaped by serde_json.

use vstd::prelude::*;
use vstd::string::StringExecFns;
use crate::request::{PartialUpdate, Property};

verus! {

#[verifier::external_type_specification]
#[verifier::external_body]
pub struct ExJsonError(serde_json::Error);

/// The JSON string literal that serde_json writes for a text.
pub uninterp spec fn json_string_of(s: Seq<char>) -> Seq<char>;

/// Relies on serde_json::to_string applied to a `str`: it returns the JSON
/// string literal for the text, quoted and escaped. Serialising a `str` into
/// the in-memory buffer that `to_string` uses does not fail.
#[verifier::external_body]
fn json_string(s: &str) -> (r: Result<String, serde_json::Error>)
    ensures
        r is Ok,
        r matches Ok(t) ==> t@ == json_string_of(s@),
{
    serde_json::to_string(s)
}

pub open spec fn property_name_spec(p: Property) -> Seq<char> {
    match p {
        Property::Title => seq!['t', 'i', 't', 'l', 'e'],
        Property::Description => seq!['d', 'e', 's', 'c', 'r', 'i', 'p', 't', 'i', 'o', 'n'],
        Property::Done => seq!['d', 'o', 'n', 'e'],
    }
}

/// `{"name":value}`, where `value` is already JSON.
pub open spec fn object_spec(name: Seq<char>, value: Seq<char>) -> Seq<char> {
    seq!['{', '"'] + name + seq!['"', ':'] + value + seq!['}']
}

pub open spec fn flag_json_spec(b: bool) -> Seq<char> {
    if b {
        seq!['t', 'r', 'u', 'e']
    } else {
        seq!['f', 'a', 'l', 's', 'e']
    }
}

/// The body of an update, given the JSON literal of its value.
pub open spec fn update_json_spec(u: PartialUpdate) -> Seq<char> {
    match u {
        PartialUpdate::Title(t) => object_spec(property_name_spec(Property::Title), json_string_of(t@)),
        PartialUpdate::Description(t) => object_spec(
            property_name_spec(Property::Description),
            json_string_of(t@),
        ),
        PartialUpdate::Done(b) => object_spec(property_name_spec(Property::Done), flag_json_spec(b)),
    }
}

/// The name under which the service knows property `p`.
pub fn property_name(p: Property) -> (r: &'static str)
    ensures
        r@ == property_name_spec(p),
{
    proof {
        reveal_strlit("title");
        reveal_strlit("description");
        reveal_strlit("done");
    }
    let r = match p {
        Property::Title => "title",
        Property::Description => "description",
        Property::Done => "done",
    };
    assert(r@ =~= property_name_spec(p));
    r
}

/// Frames `value`, which is already JSON, as the one entry `name` of an object.
pub fn json_object(name: &str, value: &str) -> (r: String)
    ensures
        r@ == object_spec(name@, value@),
{
    proof {
        reveal_strlit("{\"");
        reveal_strlit("\":");
        reveal_strlit("}");
    }
    let mut r = String::from_str("{\"");
    r.append(name);
    r.append("\":");
    r.append(value);
    r.append("}");
    assert(r@ =~= object_spec(name@, value@));
    r
}

/// The JSON body that carries `u` and nothing else.
pub fn update_json(u: &PartialUpdate) -> (r: String)
    ensures
        r@ == update_json_spec(*u),
{
    match u {
        PartialUpdate::Title(t) => {
            let q = json_string(t.as_str()).unwrap();
            json_object(property_name(Property::Title), q.as_str())
        },
        PartialUpdate::Description(t) => {
            let q = json_string(t.as_str()).unwrap();
            json_object(property_name(Property::Description), q.as_str())
        },
        PartialUpdate::Done(b) => {
            proof {
                reveal_strlit("true");
                reveal_strlit("false");
            }
            let v = if *b { "true" } else { "false" };
            assert(v@ =~= flag_json_spec(*b));
            json_object(property_name(Property::Done), v)
        },
    }
}

} // verus!

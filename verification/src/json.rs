//! JSON objects whose members are all strings, written by serde_json.

use vstd::prelude::*;
use vstd::string::*;
use crate::http::{Response, ResponseView, STATUS_OK};

verus! {

/// One member of a JSON object: a name and a string value.
#[derive(Debug)]
pub struct Member {
    /// The member's name.
    pub name: String,
    /// The member's value.
    pub value: String,
}

/// The names of the members, in order.
pub open spec fn member_names(members: Seq<Member>) -> Seq<Seq<char>> {
    members.map_values(|m: Member| m.name@)
}

/// The values of the members, in order.
pub open spec fn member_values(members: Seq<Member>) -> Seq<Seq<char>> {
    members.map_values(|m: Member| m.value@)
}

/// The compact JSON text that serde_json writes for the object that comes of
/// inserting, in order, a member `names[i]` with the string `values[i]` into
/// an empty object.
pub uninterp spec fn json_object_text(names: Seq<Seq<char>>, values: Seq<Seq<char>>) -> Seq<char>;

/// Builds a `serde_json::Map` with `Map::new` and one `Map::insert` per
/// member, each value a `serde_json::Value::String`, and writes it with the
/// `Display` of `serde_json::Value`. Not proved: that the text is the one
/// that `json_object_text` names, which is to say that it depends on the
/// names and values alone.
#[verifier::external_body]
pub(crate) fn encode_object(members: &Vec<Member>) -> (text: String)
    ensures
        text@ == json_object_text(member_names(members@), member_values(members@)),
{
    let mut object = serde_json::Map::new();
    for member in members {
        object.insert(member.name.clone(), serde_json::Value::String(member.value.clone()));
    }
    serde_json::Value::Object(object).to_string()
}

/// The content type of a JSON body.
pub open spec fn json_content_type() -> (Seq<char>, Seq<char>) {
    ("content-type"@, "application/json"@)
}

/// The response that carries `body` as JSON: status 200 and the JSON content
/// type.
pub open spec fn json_response_view(body: Seq<char>) -> ResponseView {
    ResponseView { status: STATUS_OK, headers: seq![json_content_type()], body }
}

/// Wraps an encoded JSON text in a response.
pub fn json_response(body: String) -> (response: Response)
    ensures
        response@ == json_response_view(body@),
{
    let response = Response::new(STATUS_OK).with_header("content-type", "application/json").with_body(
        body,
    );
    assert(response@.headers =~= seq![json_content_type()]);
    response
}

} // verus!

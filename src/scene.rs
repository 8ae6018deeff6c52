//! Messages of the scene-switch helper. Each is a JSON object with an
//! operation code under `op` and a payload under `d`, written compactly with
//! its keys in sorted order.

use vstd::prelude::*;

verus! {

/// The JSON string literal of a text: quoted, with the characters that JSON
/// needs escaped.
pub uninterp spec fn json_string_of(s: Seq<char>) -> Seq<char>;

/// Relies on serde_json's `Display` for `Value::String`: it writes the JSON
/// string literal of the text, which depends on the text alone.
#[verifier::external_body]
fn json_string(s: &str) -> (r: String)
    ensures
        r@ == json_string_of(s@),
{
    serde_json::Value::String(s.to_string()).to_string()
}

/// The text of the authentication message: operation 0 with an empty
/// password.
pub open spec fn auth_text() -> Seq<char> {
    "{\"d\":{\"password\":\"\"},\"op\":0}"@
}

/// The text of the message that switches to the scene named `name`:
/// operation 6 with the scene name.
pub open spec fn scene_switch_text(name: Seq<char>) -> Seq<char> {
    "{\"d\":{\"sceneName\":"@ + json_string_of(name) + "},\"op\":6}"@
}

/// The authentication message sent when a connection opens.
pub fn auth_message() -> (r: String)
    ensures
        r@ == auth_text(),
{
    String::from_str("{\"d\":{\"password\":\"\"},\"op\":0}")
}

/// The message that switches to the scene named `scene_name`.
pub fn scene_switch_message(scene_name: &str) -> (r: String)
    ensures
        r@ == scene_switch_text(scene_name@),
{
    let mut out = String::from_str("{\"d\":{\"sceneName\":");
    let quoted = json_string(scene_name);
    out.append(quoted.as_str());
    out.append("},\"op\":6}");
    out
}

} // verus!

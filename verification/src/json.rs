//! JSON bodies of the messages the agent publishes.
//!
//! String values are encoded by `serde_json`. A number arrives as text and
//! is held to the grammar of JSON numbers. The objects around them are laid
//! out here, member by member, in the compact form without whitespace.

use vstd::prelude::*;
use crate::charge::ChargeState;
use crate::number::{is_json_number, spec_is_json_number};

verus! {

/// The error of `serde_json`, named so that a result may carry it; nothing
/// looks into it.
#[verifier::external_type_specification]
#[verifier::external_body]
pub struct ExJsonError(serde_json::Error);

/// The JSON text of a string value, quotes and escapes included: what
/// `serde_json::to_string` returns for that string.
pub uninterp spec fn json_string_text(value: Seq<char>) -> Seq<char>;

/// Calls `serde_json::to_string` on a string slice.
///
/// Trusted: the result is `Ok` and holds the JSON text of `value`. The call
/// writes into a byte vector, which never reports an I/O error, and a string
/// slice is serialized through `serialize_str` alone, which has no other way
/// to fail. The text depends on the characters of `value` and on nothing else.
#[verifier::external_body]
fn encode_string(value: &str) -> (r: Result<String, serde_json::Error>)
    ensures
        r is Ok,
        r->Ok_0@ == json_string_text(value@),
{
    serde_json::to_string(value)
}

/// The JSON text of a string value.
pub(crate) fn json_string(value: &str) -> (text: String)
    ensures
        text@ == json_string_text(value@),
{
    encode_string(value).unwrap()
}

/// Body of a discovery message, over the JSON texts of its five members.
pub open spec fn spec_discovery_body(
    name: Seq<char>,
    device_class: Seq<char>,
    state_topic: Seq<char>,
    unit_of_measurement: Seq<char>,
    value_template: Seq<char>,
) -> Seq<char> {
    "{\"name\":"@ + name + ",\"device_class\":"@ + device_class + ",\"state_topic\":"@
        + state_topic + ",\"unit_of_measurement\":"@ + unit_of_measurement
        + ",\"value_template\":"@ + value_template + "}"@
}

/// Lays out the body of a discovery message. Each argument is the JSON text
/// of the member it is named after, and is copied as it stands.
pub fn discovery_body(
    name: &str,
    device_class: &str,
    state_topic: &str,
    unit_of_measurement: &str,
    value_template: &str,
) -> (body: String)
    ensures
        body@ == spec_discovery_body(
            name@,
            device_class@,
            state_topic@,
            unit_of_measurement@,
            value_template@,
        ),
{
    let mut body = String::from_str("{\"name\":");
    body.append(name);
    body.append(",\"device_class\":");
    body.append(device_class);
    body.append(",\"state_topic\":");
    body.append(state_topic);
    body.append(",\"unit_of_measurement\":");
    body.append(unit_of_measurement);
    body.append(",\"value_template\":");
    body.append(value_template);
    body.append("}");
    body
}

/// Payload sent in place of a state body that could not be produced.
pub open spec fn spec_fallback_payload() -> Seq<char> {
    "parsing error"@
}

/// Body of a state message, over the JSON text of the percentage.
pub open spec fn spec_state_body(number: Seq<char>, state: ChargeState) -> Seq<char> {
    "{\"percentage\":"@ + number + ",\"state\":\""@ + state.spec_name() + "\"}"@
}

/// Payload of a state message: the body where the percentage was rendered
/// as a JSON number, the fallback text where it was not.
pub open spec fn spec_state_payload(number: Option<Seq<char>>, state: ChargeState) -> Seq<char> {
    match number {
        Some(text) => if spec_is_json_number(text) {
            spec_state_body(text, state)
        } else {
            spec_fallback_payload()
        },
        None => spec_fallback_payload(),
    }
}

/// Lays out the body of a state message. `number` is the JSON text of the
/// percentage and is copied as it stands.
pub fn state_body(number: &str, state: ChargeState) -> (body: String)
    ensures
        body@ == spec_state_body(number@, state),
{
    let mut body = String::from_str("{\"percentage\":");
    body.append(number);
    body.append(",\"state\":\"");
    body.append(state.name());
    body.append("\"}");
    body
}

/// Payload of a state message. `number` is the percentage as it was
/// rendered, or `None` where rendering it failed. Text that is no JSON
/// number counts as a failure too; publication goes on either way.
pub fn state_payload(number: Option<&str>, state: ChargeState) -> (payload: String)
    ensures
        payload@ == spec_state_payload(
            match number {
                Some(text) => Some(text@),
                None => None,
            },
            state,
        ),
{
    match number {
        Some(text) => {
            if is_json_number(text) {
                state_body(text, state)
            } else {
                String::from_str("parsing error")
            }
        },
        None => String::from_str("parsing error"),
    }
}

} // verus!

//! JSON text for the wire envelopes. String values are quoted by
//! `serde_json`; the objects around them are framed here.

use vstd::prelude::*;

verus! {

/// The JSON string literal for `s`, quotation marks included, as
/// `serde_json` writes it.
pub uninterp spec fn json_quoted(s: Seq<char>) -> Seq<char>;

/// `serde_json::to_string` on a string slice. Trusted: the result is the JSON
/// string literal of `s`, a function of `s` alone. Serialising a `str` into a
/// buffer in memory has no failing path, so the `Result` is always `Ok`.
#[verifier::external_body]
pub(crate) fn quote(s: &str) -> (quoted: String)
    ensures
        quoted@ == json_quoted(s@),
{
    serde_json::to_string(s).unwrap_or_default()
}

/// `{"<name>":<value>}` grows member by member: the text of one member,
/// preceded by a comma unless it is the first.
pub open spec fn spec_member(first: bool, name: Seq<char>, value: Seq<char>) -> Seq<char> {
    (if first {
        Seq::<char>::empty()
    } else {
        ","@
    }) + "\""@ + name + "\":"@ + value
}

/// Appends one member to an object under construction. `name` is written
/// between quotation marks as it stands, so it must need no escaping;
/// `value` is JSON text already.
pub fn push_member(out: &mut String, first: bool, name: &str, value: &str)
    ensures
        final(out)@ == old(out)@ + spec_member(first, name@, value@),
{
    if !first {
        out.push_str(",");
    }
    out.push_str("\"");
    out.push_str(name);
    out.push_str("\":");
    out.push_str(value);
    assert(final(out)@ =~= old(out)@ + spec_member(first, name@, value@));
}

/// The object with the single member `name`.
pub open spec fn spec_object1(name: Seq<char>, value: Seq<char>) -> Seq<char> {
    "{"@ + spec_member(true, name, value) + "}"@
}

/// The object with two members, in this order.
pub open spec fn spec_object2(
    name0: Seq<char>,
    value0: Seq<char>,
    name1: Seq<char>,
    value1: Seq<char>,
) -> Seq<char> {
    "{"@ + spec_member(true, name0, value0) + spec_member(false, name1, value1) + "}"@
}

/// The object with three members, in this order.
pub open spec fn spec_object3(
    name0: Seq<char>,
    value0: Seq<char>,
    name1: Seq<char>,
    value1: Seq<char>,
    name2: Seq<char>,
    value2: Seq<char>,
) -> Seq<char> {
    "{"@ + spec_member(true, name0, value0) + spec_member(false, name1, value1) + spec_member(
        false,
        name2,
        value2,
    ) + "}"@
}

/// Frames an object with one member.
pub fn object1(name: &str, value: &str) -> (text: String)
    ensures
        text@ == spec_object1(name@, value@),
{
    let mut text = String::new();
    text.push_str("{");
    push_member(&mut text, true, name, value);
    text.push_str("}");
    assert(text@ =~= spec_object1(name@, value@));
    text
}

/// Frames an object with two members.
pub fn object2(name0: &str, value0: &str, name1: &str, value1: &str) -> (text: String)
    ensures
        text@ == spec_object2(name0@, value0@, name1@, value1@),
{
    let mut text = String::new();
    text.push_str("{");
    push_member(&mut text, true, name0, value0);
    push_member(&mut text, false, name1, value1);
    text.push_str("}");
    assert(text@ =~= spec_object2(name0@, value0@, name1@, value1@));
    text
}

/// Frames an object with three members.
pub fn object3(
    name0: &str,
    value0: &str,
    name1: &str,
    value1: &str,
    name2: &str,
    value2: &str,
) -> (text: String)
    ensures
        text@ == spec_object3(name0@, value0@, name1@, value1@, name2@, value2@),
{
    let mut text = String::new();
    text.push_str("{");
    push_member(&mut text, true, name0, value0);
    push_member(&mut text, false, name1, value1);
    push_member(&mut text, false, name2, value2);
    text.push_str("}");
    assert(text@ =~= spec_object3(name0@, value0@, name1@, value1@, name2@, value2@));
    text
}

/// The error envelope around an already quoted message: `{"error":<quoted>}`.
pub open spec fn spec_error_envelope(quoted: Seq<char>) -> Seq<char> {
    spec_object1("error"@, quoted)
}

/// Frames the error envelope around a message that is JSON text already.
pub fn error_envelope_of(quoted: &str) -> (text: String)
    ensures
        text@ == spec_error_envelope(quoted@),
{
    object1("error", quoted)
}

/// The error envelope that tells a client what went wrong.
pub fn error_envelope(message: &str) -> (text: String)
    ensures
        text@ == spec_error_envelope(json_quoted(message@)),
{
    let quoted = quote(message);
    error_envelope_of(quoted.as_str())
}

/// The envelope of a bus-originated event:
/// `{"type":<quoted kind>,"data":<data>}`.
pub open spec fn spec_event_envelope(quoted_kind: Seq<char>, data: Seq<char>) -> Seq<char> {
    spec_object2("type"@, quoted_kind, "data"@, data)
}

/// Frames the event envelope around a quoted kind and a payload that is JSON
/// text already.
pub fn event_envelope_of(quoted_kind: &str, data: &str) -> (text: String)
    ensures
        text@ == spec_event_envelope(quoted_kind@, data@),
{
    object2("type", quoted_kind, "data", data)
}

/// The envelope in which an event of the given kind is forwarded to a client.
pub fn event_envelope(kind: &str, data: &str) -> (text: String)
    ensures
        text@ == spec_event_envelope(json_quoted(kind@), data@),
{
    let quoted = quote(kind);
    event_envelope_of(quoted.as_str(), data)
}

} // verus!

//! The canned operation handlers: each decodes the base64-wrapped
//! argument payload, checks the operation's field set, and builds the
//! reply. Decoding is total — every failure becomes the generic error
//! reply, never a crash.

use vstd::prelude::*;
use vstd::utf8::{decode_utf8, valid_utf8};
use crate::encoding::{base64_decode, base64_decoded, utf8_to_string};
use crate::json::{field_lookup, find_field, json_object_fields, parse_json_object, JsonField,
    JsonFieldV};
use crate::response::{create_error_response, create_onoff_read_response,
    create_onoff_write_response, create_success_response, render_response, spec_error_response,
    spec_onoff_read_response, spec_onoff_write_response, spec_success_response, ResponseV};
use crate::text::{has_prefix, strip_prefix_text};

verus! {

/// The field list the argument payload decodes to, or the diagnostic of
/// the stage that refused it: the payload must carry the `base64:` tag,
/// its body must decode as base64, the bytes must be UTF-8 text, and the
/// text must be a JSON object.
pub open spec fn spec_decode_arguments(args: Seq<char>) -> Result<
    Seq<(Seq<char>, JsonFieldV)>,
    Seq<char>,
> {
    if !has_prefix(args, "base64:"@) {
        Err("Arguments must be base64 encoded"@)
    } else {
        match base64_decoded(args.skip("base64:"@.len() as int)) {
            None => Err("Invalid base64 format"@),
            Some(bytes) => if !valid_utf8(bytes) {
                Err("Invalid base64 encoding"@)
            } else {
                match json_object_fields(decode_utf8(bytes)) {
                    None => Err("Invalid arguments format"@),
                    Some(fields) => Ok(fields),
                }
            },
        }
    }
}

/// Decode a `base64:`-tagged argument payload to its JSON object fields.
pub fn decode_arguments(arguments: &str) -> (r: Result<Vec<(String, JsonField)>, &'static str>)
    ensures
        match r {
            Ok(fields) => spec_decode_arguments(arguments@) == Ok::<_, Seq<char>>(
                fields.deep_view(),
            ),
            Err(m) => spec_decode_arguments(arguments@) == Err::<Seq<(Seq<char>, JsonFieldV)>, _>(
                m@,
            ),
        },
{
    let body = match strip_prefix_text(arguments, "base64:") {
        Some(rest) => rest,
        None => { return Err("Arguments must be base64 encoded"); },
    };
    let bytes = match base64_decode(body) {
        Some(b) => b,
        None => { return Err("Invalid base64 format"); },
    };
    let text = match utf8_to_string(bytes) {
        Some(t) => t,
        None => { return Err("Invalid base64 encoding"); },
    };
    match parse_json_object(text.as_str()) {
        Some(fields) => Ok(fields),
        None => Err("Invalid arguments format"),
    }
}

/// The reply to a commissioning wait: the arguments must decode and
/// carry a `nodeId` string; the handler then always reports the device
/// as connected.
pub open spec fn spec_handle_wait(args: Seq<char>) -> ResponseV {
    match spec_decode_arguments(args) {
        Err(m) => spec_error_response(m),
        Ok(fields) => match field_lookup(fields, "nodeId"@) {
            Some(JsonFieldV::Text(node_id)) => spec_success_response(node_id),
            _ => spec_error_response("Invalid arguments format"@),
        },
    }
}

/// Handle the commissioning-wait operation.
pub fn handle_wait_for_commissionee(arguments: &str) -> (r: Option<String>)
    ensures
        r matches Some(t) && t@ == render_response(spec_handle_wait(arguments@)),
{
    let fields = match decode_arguments(arguments) {
        Ok(f) => f,
        Err(m) => { return Some(create_error_response(m)); },
    };
    match find_field(&fields, "nodeId") {
        Some(JsonField::Text(node_id)) => Some(create_success_response(node_id.as_str())),
        _ => Some(create_error_response("Invalid arguments format")),
    }
}

/// The reply to an attribute read: the arguments must decode and carry
/// `destination-id` and `endpoint-ids` strings; the simulated attribute
/// always reads as on.
pub open spec fn spec_handle_read(args: Seq<char>) -> ResponseV {
    match spec_decode_arguments(args) {
        Err(m) => spec_error_response(m),
        Ok(fields) => match (
            field_lookup(fields, "destination-id"@),
            field_lookup(fields, "endpoint-ids"@),
        ) {
            (
                Some(JsonFieldV::Text(destination)),
                Some(JsonFieldV::Text(endpoint)),
            ) => spec_onoff_read_response(endpoint, true),
            _ => spec_error_response("Invalid arguments format"@),
        },
    }
}

/// Handle the attribute-read operation.
pub fn handle_onoff_read(arguments: &str) -> (r: Option<String>)
    ensures
        r matches Some(t) && t@ == render_response(spec_handle_read(arguments@)),
{
    let fields = match decode_arguments(arguments) {
        Ok(f) => f,
        Err(m) => { return Some(create_error_response(m)); },
    };
    let destination = match find_field(&fields, "destination-id") {
        Some(JsonField::Text(d)) => d.clone(),
        _ => { return Some(create_error_response("Invalid arguments format")); },
    };
    let endpoint = match find_field(&fields, "endpoint-ids") {
        Some(JsonField::Text(e)) => e.clone(),
        _ => { return Some(create_error_response("Invalid arguments format")); },
    };
    Some(create_onoff_read_response(destination.as_str(), endpoint.as_str(), true))
}

/// The attribute name an operation specifier denotes: the specifier
/// itself, or `unknown` where the envelope carried none.
pub open spec fn specifier_name(specifier: Option<Seq<char>>) -> Seq<char> {
    match specifier {
        Some(s) => s,
        None => "unknown"@,
    }
}

/// The reply to an attribute write: the arguments must decode and carry
/// `destination-id`, `endpoint-id-ignored-for-group-commands` and
/// `attribute-values` strings; the written value is echoed only in the
/// log line, never in the result record.
pub open spec fn spec_handle_write(args: Seq<char>, specifier: Option<Seq<char>>) -> ResponseV {
    match spec_decode_arguments(args) {
        Err(m) => spec_error_response(m),
        Ok(fields) => match (
            field_lookup(fields, "destination-id"@),
            field_lookup(fields, "endpoint-id-ignored-for-group-commands"@),
            field_lookup(fields, "attribute-values"@),
        ) {
            (
                Some(JsonFieldV::Text(destination)),
                Some(JsonFieldV::Text(endpoint)),
                Some(JsonFieldV::Text(value)),
            ) => spec_onoff_write_response(endpoint, specifier_name(specifier), value),
            _ => spec_error_response("Invalid arguments format"@),
        },
    }
}

/// Handle the attribute-write operation.
pub fn handle_onoff_write(arguments: &str, command_specifier: &Option<String>) -> (r: Option<
    String,
>)
    ensures
        r matches Some(t) && t@ == render_response(
            spec_handle_write(
                arguments@,
                match *command_specifier {
                    Some(s) => Some(s@),
                    None => None,
                },
            ),
        ),
{
    let fields = match decode_arguments(arguments) {
        Ok(f) => f,
        Err(m) => { return Some(create_error_response(m)); },
    };
    let destination = match find_field(&fields, "destination-id") {
        Some(JsonField::Text(d)) => d.clone(),
        _ => { return Some(create_error_response("Invalid arguments format")); },
    };
    let endpoint = match find_field(&fields, "endpoint-id-ignored-for-group-commands") {
        Some(JsonField::Text(e)) => e.clone(),
        _ => { return Some(create_error_response("Invalid arguments format")); },
    };
    let value = match find_field(&fields, "attribute-values") {
        Some(JsonField::Text(v)) => v.clone(),
        _ => { return Some(create_error_response("Invalid arguments format")); },
    };
    let attribute_name = match command_specifier {
        Some(s) => s.as_str(),
        None => "unknown",
    };
    Some(create_onoff_write_response(
        destination.as_str(),
        endpoint.as_str(),
        attribute_name,
        value.as_str(),
    ))
}

} // verus!

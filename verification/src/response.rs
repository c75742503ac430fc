//! The response encoder: the structured reply model and its rendering to
//! the JSON-shaped wire text. Success and failure share one shape; every
//! diagnostic message is carried base64-encoded in the single log entry.
//! Rendering is total — a plain function from the reply to its text — so
//! encoding can never fail and never tears a connection down.

use vstd::prelude::*;
use vstd::utf8::encode_utf8;
use crate::encoding::{base64_encode, base64_of};
use crate::text::{dec_rep, parse_u16, spec_parse_u16, str_eq, u16_to_dec};

verus! {

/// The results part of a reply: empty on a commissioning wait, one fixed
/// record on an attribute read or write, and the generic failure marker
/// on every error path.
pub enum ResultRecord {
    Empty,
    ReadOnOff { endpoint: u16, on: bool },
    WriteOnOff { endpoint: u16, attribute: u16 },
    Failure,
}

/// Log category of the reply's single log entry.
pub enum Category {
    Info,
    Error,
}

/// Mathematical model of a reply before rendering: its results, the log
/// category, and the raw (not yet base64-wrapped) log message.
pub struct ResponseV {
    pub results: ResultRecord,
    pub category: Category,
    pub message: Seq<char>,
}

/// JSON text of the results array's contents.
pub open spec fn render_results(r: ResultRecord) -> Seq<char> {
    match r {
        ResultRecord::Empty => Seq::<char>::empty(),
        ResultRecord::ReadOnOff { endpoint, on } => "{\"clusterId\":6,\"endpointId\":"@
            + dec_rep(endpoint as nat) + ",\"attributeId\":0,\"value\":"@
            + (if on { "true"@ } else { "false"@ }) + "}"@,
        ResultRecord::WriteOnOff { endpoint, attribute } => "{\"clusterId\":6,\"endpointId\":"@
            + dec_rep(endpoint as nat) + ",\"attributeId\":"@ + dec_rep(attribute as nat) + "}"@,
        ResultRecord::Failure => "{\"error\":\"FAILURE\"}"@,
    }
}

/// Wire text of a log category.
pub open spec fn render_category(c: Category) -> Seq<char> {
    match c {
        Category::Info => "Info"@,
        Category::Error => "Error"@,
    }
}

/// Full wire text of a reply: one `results` array and one log entry whose
/// message is the base64 encoding of the raw log message.
pub open spec fn render_response(r: ResponseV) -> Seq<char> {
    "{\"results\":["@ + render_results(r.results)
        + "],\"logs\":[{\"module\":\"chipTool\",\"category\":\""@ + render_category(r.category)
        + "\",\"message\":\""@ + base64_of(encode_utf8(r.message)) + "\"}]}"@
}

fn results_text(results: &ResultRecord) -> (r: String)
    ensures
        r@ == render_results(*results),
{
    match results {
        ResultRecord::Empty => String::new(),
        ResultRecord::ReadOnOff { endpoint, on } => {
            let mut s = String::from_str("{\"clusterId\":6,\"endpointId\":");
            s.append(u16_to_dec(*endpoint).as_str());
            s.append(",\"attributeId\":0,\"value\":");
            s.append(if *on { "true" } else { "false" });
            s.append("}");
            s
        },
        ResultRecord::WriteOnOff { endpoint, attribute } => {
            let mut s = String::from_str("{\"clusterId\":6,\"endpointId\":");
            s.append(u16_to_dec(*endpoint).as_str());
            s.append(",\"attributeId\":");
            s.append(u16_to_dec(*attribute).as_str());
            s.append("}");
            s
        },
        ResultRecord::Failure => String::from_str("{\"error\":\"FAILURE\"}"),
    }
}

/// Render a reply to its wire text.
pub fn render_text(results: &ResultRecord, category: Category, message: &str) -> (r: String)
    ensures
        r@ == render_response(
            ResponseV { results: *results, category, message: message@ },
        ),
{
    let mut s = String::from_str("{\"results\":[");
    s.append(results_text(results).as_str());
    s.append("],\"logs\":[{\"module\":\"chipTool\",\"category\":\"");
    s.append(
        match category {
            Category::Info => "Info",
            Category::Error => "Error",
        },
    );
    s.append("\",\"message\":\"");
    s.append(base64_encode(message.as_bytes()).as_str());
    s.append("\"}]}");
    s
}

/// The endpoint id a raw text denotes: its value as a 16-bit decimal
/// integer, or `1` where it does not parse as one (the silent-default
/// policy of the emulated tool).
pub open spec fn parse_or_one(s: Seq<char>) -> u16 {
    match spec_parse_u16(s) {
        Some(n) => n,
        None => 1u16,
    }
}

/// The numeric attribute id a written attribute name maps to; names
/// outside the fixed table map to `0`.
pub open spec fn attribute_id_of(name: Seq<char>) -> u16 {
    if name == "on-time"@ {
        16385u16
    } else if name == "off-wait-time"@ {
        16386u16
    } else {
        0u16
    }
}

/// Map an attribute name to its numeric id.
pub fn attribute_id(name: &str) -> (r: u16)
    ensures
        r == attribute_id_of(name@),
{
    if str_eq(name, "on-time") {
        16385
    } else if str_eq(name, "off-wait-time") {
        16386
    } else {
        0
    }
}

/// Log message of a successful commissioning wait.
pub open spec fn wait_log_message(node_id: Seq<char>) -> Seq<char> {
    "Device "@ + node_id + " connected successfully"@
}

/// Log message of an attribute read; the endpoint appears as the raw
/// text the request carried.
pub open spec fn read_log_message(endpoint_raw: Seq<char>, on: bool) -> Seq<char> {
    "Read OnOff attribute from endpoint "@ + endpoint_raw + ": "@
        + (if on { "ON"@ } else { "OFF"@ })
}

/// Log message of an attribute write.
pub open spec fn write_log_message(
    name: Seq<char>,
    endpoint_raw: Seq<char>,
    value: Seq<char>,
) -> Seq<char> {
    "Write OnOff attribute '"@ + name + "' to endpoint "@ + endpoint_raw + ": value="@ + value
}

/// The reply to a successful commissioning wait: no results, one
/// informational log line naming the node.
pub open spec fn spec_success_response(node_id: Seq<char>) -> ResponseV {
    ResponseV {
        results: ResultRecord::Empty,
        category: Category::Info,
        message: wait_log_message(node_id),
    }
}

/// The reply to an attribute read: one fixed record for the OnOff
/// attribute of the endpoint the raw text denotes.
pub open spec fn spec_onoff_read_response(endpoint_raw: Seq<char>, on: bool) -> ResponseV {
    ResponseV {
        results: ResultRecord::ReadOnOff { endpoint: parse_or_one(endpoint_raw), on },
        category: Category::Info,
        message: read_log_message(endpoint_raw, on),
    }
}

/// The reply to an attribute write: one record naming cluster, endpoint
/// and attribute id, and nothing else.
pub open spec fn spec_onoff_write_response(
    endpoint_raw: Seq<char>,
    name: Seq<char>,
    value: Seq<char>,
) -> ResponseV {
    ResponseV {
        results: ResultRecord::WriteOnOff {
            endpoint: parse_or_one(endpoint_raw),
            attribute: attribute_id_of(name),
        },
        category: Category::Info,
        message: write_log_message(name, endpoint_raw, value),
    }
}

/// The one failure reply every error path converges on: a single
/// `FAILURE` marker plus the diagnostic as an error-category log line.
pub open spec fn spec_error_response(message: Seq<char>) -> ResponseV {
    ResponseV { results: ResultRecord::Failure, category: Category::Error, message }
}

/// Build the wire text of a successful commissioning wait.
pub fn create_success_response(node_id: &str) -> (r: String)
    ensures
        r@ == render_response(spec_success_response(node_id@)),
{
    let mut msg = String::from_str("Device ");
    msg.append(node_id);
    msg.append(" connected successfully");
    render_text(&ResultRecord::Empty, Category::Info, msg.as_str())
}

/// Build the wire text of an attribute read reply.
#[allow(unused_variables)]
pub fn create_onoff_read_response(destination_id: &str, endpoint_id: &str, on_state: bool) -> (r:
    String)
    ensures
        r@ == render_response(spec_onoff_read_response(endpoint_id@, on_state)),
{
    let mut msg = String::from_str("Read OnOff attribute from endpoint ");
    msg.append(endpoint_id);
    msg.append(": ");
    msg.append(if on_state { "ON" } else { "OFF" });
    let endpoint = match parse_u16(endpoint_id) {
        Some(n) => n,
        None => 1,
    };
    render_text(
        &ResultRecord::ReadOnOff { endpoint, on: on_state },
        Category::Info,
        msg.as_str(),
    )
}

/// Build the wire text of an attribute write reply.
#[allow(unused_variables)]
pub fn create_onoff_write_response(
    destination_id: &str,
    endpoint_id: &str,
    attribute_name: &str,
    value: &str,
) -> (r: String)
    ensures
        r@ == render_response(spec_onoff_write_response(endpoint_id@, attribute_name@, value@)),
{
    let mut msg = String::from_str("Write OnOff attribute '");
    msg.append(attribute_name);
    msg.append("' to endpoint ");
    msg.append(endpoint_id);
    msg.append(": value=");
    msg.append(value);
    let endpoint = match parse_u16(endpoint_id) {
        Some(n) => n,
        None => 1,
    };
    let attribute = attribute_id(attribute_name);
    render_text(
        &ResultRecord::WriteOnOff { endpoint, attribute },
        Category::Info,
        msg.as_str(),
    )
}

/// Build the wire text of the generic error reply.
pub fn create_error_response(error_msg: &str) -> (r: String)
    ensures
        r@ == render_response(spec_error_response(error_msg@)),
{
    render_text(&ResultRecord::Failure, Category::Error, error_msg)
}

} // verus!

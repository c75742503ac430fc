//! The command envelope: the outer JSON-shaped frame carrying a domain
//! (`cluster`), an operation (`command`), an opaque argument payload, and
//! an optional operation specifier.

use vstd::prelude::*;
use crate::json::{field_lookup, find_field, json_object_fields, parse_json_object, JsonField,
    JsonFieldV};
use crate::text::{has_prefix, strip_prefix_text};

verus! {

/// Mathematical model of a parsed command envelope.
pub struct EnvelopeV {
    pub cluster: Seq<char>,
    pub command: Seq<char>,
    pub arguments: Seq<char>,
    pub specifier: Option<Seq<char>>,
}

/// A parsed command envelope.
pub struct Envelope {
    pub cluster: String,
    pub command: String,
    pub arguments: String,
    pub specifier: Option<String>,
}

impl View for Envelope {
    type V = EnvelopeV;

    open spec fn view(&self) -> EnvelopeV {
        EnvelopeV {
            cluster: self.cluster@,
            command: self.command@,
            arguments: self.arguments@,
            specifier: match self.specifier {
                Some(s) => Some(s@),
                None => None,
            },
        }
    }
}

/// The envelope that a field list yields: `cluster`, `command` and
/// `arguments` must be present as strings; `command_specifier` may be
/// absent or null (no specifier) or a string, but nothing else.
pub open spec fn envelope_of_fields(fields: Seq<(Seq<char>, JsonFieldV)>) -> Option<EnvelopeV> {
    match (
        field_lookup(fields, "cluster"@),
        field_lookup(fields, "command"@),
        field_lookup(fields, "arguments"@),
    ) {
        (
            Some(JsonFieldV::Text(cluster)),
            Some(JsonFieldV::Text(command)),
            Some(JsonFieldV::Text(arguments)),
        ) => match field_lookup(fields, "command_specifier"@) {
            None => Some(
                EnvelopeV { cluster, command, arguments, specifier: None },
            ),
            Some(JsonFieldV::Null) => Some(
                EnvelopeV { cluster, command, arguments, specifier: None },
            ),
            Some(JsonFieldV::Text(sp)) => Some(
                EnvelopeV { cluster, command, arguments, specifier: Some(sp) },
            ),
            Some(JsonFieldV::Other) => None,
        },
        _ => None,
    }
}

/// The frame text after the optional `json:` calling-convention tag.
pub open spec fn strip_frame_tag(s: Seq<char>) -> Seq<char> {
    if has_prefix(s, "json:"@) {
        s.skip("json:"@.len() as int)
    } else {
        s
    }
}

/// The envelope that a raw text frame parses to, if any: strip the
/// optional `json:` tag, parse as a JSON object, and read the fields.
pub open spec fn spec_parse_envelope(s: Seq<char>) -> Option<EnvelopeV> {
    match json_object_fields(strip_frame_tag(s)) {
        Some(fields) => envelope_of_fields(fields),
        None => None,
    }
}

fn envelope_from_fields(fields: &Vec<(String, JsonField)>) -> (r: Option<Envelope>)
    ensures
        match r {
            Some(e) => envelope_of_fields(fields.deep_view()) == Some(e@),
            None => envelope_of_fields(fields.deep_view()) is None,
        },
{
    let cluster = match find_field(fields, "cluster") {
        Some(JsonField::Text(s)) => s.clone(),
        _ => { return None; },
    };
    let command = match find_field(fields, "command") {
        Some(JsonField::Text(s)) => s.clone(),
        _ => { return None; },
    };
    let arguments = match find_field(fields, "arguments") {
        Some(JsonField::Text(s)) => s.clone(),
        _ => { return None; },
    };
    let specifier = match find_field(fields, "command_specifier") {
        None => None,
        Some(JsonField::Null) => None,
        Some(JsonField::Text(s)) => Some(s.clone()),
        Some(JsonField::Other) => { return None; },
    };
    Some(Envelope { cluster, command, arguments, specifier })
}

/// Parse a raw text frame into a command envelope.
pub fn parse_envelope(s: &str) -> (r: Option<Envelope>)
    ensures
        match r {
            Some(e) => spec_parse_envelope(s@) == Some(e@),
            None => spec_parse_envelope(s@) is None,
        },
{
    let body = match strip_prefix_text(s, "json:") {
        Some(rest) => rest,
        None => s,
    };
    assert(body@ == strip_frame_tag(s@));
    match parse_json_object(body) {
        Some(fields) => envelope_from_fields(&fields),
        None => None,
    }
}

} // verus!

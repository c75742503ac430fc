//! The library's stated laws: what every reply looks like for each class
//! of request, proved over the spec-level pipeline.

use vstd::prelude::*;
use crate::envelope::{spec_parse_envelope, EnvelopeV};
use crate::handlers::{spec_decode_arguments, specifier_name};
use crate::json::{field_lookup, JsonFieldV};
use crate::pipeline::{spec_process_command, spec_respond, unknown_command_message};
use crate::registry::{spec_resolve, OperationKind};
use crate::response::{attribute_id_of, parse_or_one, read_log_message, wait_log_message,
    write_log_message, Category, ResultRecord};
use crate::text::has_prefix;

verus! {

/// Every valid commissioning-wait request — whatever the node id — gets
/// a reply with no results and an informational log line naming the
/// node as connected.
pub proof fn lemma_wait_response_for_valid_request(
    msg: Seq<char>,
    env: EnvelopeV,
    fields: Seq<(Seq<char>, JsonFieldV)>,
    node_id: Seq<char>,
)
    requires
        spec_parse_envelope(msg) == Some(env),
        spec_resolve(env.cluster, env.command) == OperationKind::WaitForCommissionee,
        spec_decode_arguments(env.arguments) == Ok::<_, Seq<char>>(fields),
        field_lookup(fields, "nodeId"@) == Some(JsonFieldV::Text(node_id)),
    ensures
        spec_respond(msg).results == ResultRecord::Empty,
        spec_respond(msg).category == Category::Info,
        spec_respond(msg).message == wait_log_message(node_id),
{
}

/// Every valid attribute-read request gets exactly one result record:
/// the OnOff cluster, attribute zero, value on, and the endpoint the raw
/// `endpoint-ids` text parses to — or `1` where it does not parse.
pub proof fn lemma_read_response_for_valid_request(
    msg: Seq<char>,
    env: EnvelopeV,
    fields: Seq<(Seq<char>, JsonFieldV)>,
    destination: Seq<char>,
    endpoint_raw: Seq<char>,
)
    requires
        spec_parse_envelope(msg) == Some(env),
        spec_resolve(env.cluster, env.command) == OperationKind::OnOffRead,
        spec_decode_arguments(env.arguments) == Ok::<_, Seq<char>>(fields),
        field_lookup(fields, "destination-id"@) == Some(JsonFieldV::Text(destination)),
        field_lookup(fields, "endpoint-ids"@) == Some(JsonFieldV::Text(endpoint_raw)),
    ensures
        spec_respond(msg).results == (ResultRecord::ReadOnOff {
            endpoint: parse_or_one(endpoint_raw),
            on: true,
        }),
        spec_respond(msg).category == Category::Info,
        spec_respond(msg).message == read_log_message(endpoint_raw, true),
{
}

/// Every valid attribute-write request gets exactly one result record
/// holding cluster, endpoint and attribute id and nothing else — the
/// written value is never echoed back, and no status or error field
/// exists on the success path.
pub proof fn lemma_write_response_for_valid_request(
    msg: Seq<char>,
    env: EnvelopeV,
    fields: Seq<(Seq<char>, JsonFieldV)>,
    destination: Seq<char>,
    endpoint_raw: Seq<char>,
    value: Seq<char>,
)
    requires
        spec_parse_envelope(msg) == Some(env),
        spec_resolve(env.cluster, env.command) == OperationKind::OnOffWrite,
        spec_decode_arguments(env.arguments) == Ok::<_, Seq<char>>(fields),
        field_lookup(fields, "destination-id"@) == Some(JsonFieldV::Text(destination)),
        field_lookup(fields, "endpoint-id-ignored-for-group-commands"@) == Some(
            JsonFieldV::Text(endpoint_raw),
        ),
        field_lookup(fields, "attribute-values"@) == Some(JsonFieldV::Text(value)),
    ensures
        spec_respond(msg).results == (ResultRecord::WriteOnOff {
            endpoint: parse_or_one(endpoint_raw),
            attribute: attribute_id_of(specifier_name(env.specifier)),
        }),
        spec_respond(msg).category == Category::Info,
        spec_respond(msg).message == write_log_message(
            specifier_name(env.specifier),
            endpoint_raw,
            value,
        ),
{
}

/// The fixed attribute-name table: the two named timers map to their
/// ids, and every other name maps to zero.
pub proof fn lemma_attribute_id_table()
    ensures
        attribute_id_of("on-time"@) == 16385,
        attribute_id_of("off-wait-time"@) == 16386,
        forall|name: Seq<char>|
            name != "on-time"@ && name != "off-wait-time"@ ==> attribute_id_of(name) == 0,
{
    reveal_strlit("on-time");
    reveal_strlit("off-wait-time");
    assert("off-wait-time"@.len() != "on-time"@.len());
}

/// An argument payload without the `base64:` tag yields the generic
/// failure reply, whatever domain and operation the envelope names.
pub proof fn lemma_untagged_arguments_yield_failure(msg: Seq<char>, env: EnvelopeV)
    requires
        spec_parse_envelope(msg) == Some(env),
        !has_prefix(env.arguments, "base64:"@),
    ensures
        spec_respond(msg).results == ResultRecord::Failure,
        spec_respond(msg).category == Category::Error,
        spec_resolve(env.cluster, env.command) != OperationKind::Unknown ==> spec_respond(
            msg,
        ).message == "Arguments must be base64 encoded"@,
{
}

/// A (domain, operation) pair outside the registry yields the generic
/// failure reply whose log line echoes both with their original casing.
pub proof fn lemma_unknown_command_response(msg: Seq<char>, env: EnvelopeV)
    requires
        spec_parse_envelope(msg) == Some(env),
        spec_resolve(env.cluster, env.command) == OperationKind::Unknown,
    ensures
        spec_respond(msg).results == ResultRecord::Failure,
        spec_respond(msg).category == Category::Error,
        spec_respond(msg).message == unknown_command_message(env.cluster, env.command),
{
}

/// Processing is a pure function of the frame text: identical requests
/// get byte-identical replies, on one connection or across connections —
/// no hidden state accumulates.
pub proof fn lemma_identical_requests_identical_replies(first: Seq<char>, second: Seq<char>)
    requires
        first == second,
    ensures
        spec_process_command(first) == spec_process_command(second),
{
}

} // verus!

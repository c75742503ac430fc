//! The per-frame pipeline: parse the envelope, resolve the operation,
//! run the handler, and render the reply — or short-circuit any failed
//! step into the generic error reply. Every frame gets exactly one
//! reply; no state survives from one frame to the next.

use vstd::prelude::*;
use crate::envelope::{parse_envelope, spec_parse_envelope};
use crate::handlers::{handle_onoff_read, handle_onoff_write, handle_wait_for_commissionee,
    spec_handle_read, spec_handle_wait, spec_handle_write};
use crate::registry::{resolve, spec_resolve, OperationKind};
use crate::response::{create_error_response, render_response, spec_error_response, ResponseV};

verus! {

/// Diagnostic for a pair the registry does not know, echoing domain and
/// operation with their original casing.
pub open spec fn unknown_command_message(domain: Seq<char>, operation: Seq<char>) -> Seq<char> {
    "Unknown command: "@ + domain + " "@ + operation
}

/// The structured reply a raw text frame produces.
pub open spec fn spec_respond(msg: Seq<char>) -> ResponseV {
    match spec_parse_envelope(msg) {
        None => spec_error_response("Invalid JSON format"@),
        Some(env) => match spec_resolve(env.cluster, env.command) {
            OperationKind::WaitForCommissionee => spec_handle_wait(env.arguments),
            OperationKind::OnOffRead => spec_handle_read(env.arguments),
            OperationKind::OnOffWrite => spec_handle_write(env.arguments, env.specifier),
            OperationKind::Unknown => spec_error_response(
                unknown_command_message(env.cluster, env.command),
            ),
        },
    }
}

/// The wire text a raw text frame produces.
pub open spec fn spec_process_command(msg: Seq<char>) -> Seq<char> {
    render_response(spec_respond(msg))
}

/// Process one inbound text frame and produce its reply.
pub fn process_command(message: &str) -> (r: Option<String>)
    ensures
        r matches Some(t) && t@ == spec_process_command(message@),
{
    let env = match parse_envelope(message) {
        Some(e) => e,
        None => { return Some(create_error_response("Invalid JSON format")); },
    };
    match resolve(env.cluster.as_str(), env.command.as_str()) {
        OperationKind::WaitForCommissionee => handle_wait_for_commissionee(env.arguments.as_str()),
        OperationKind::OnOffRead => handle_onoff_read(env.arguments.as_str()),
        OperationKind::OnOffWrite => handle_onoff_write(env.arguments.as_str(), &env.specifier),
        OperationKind::Unknown => {
            let mut m = String::from_str("Unknown command: ");
            m.append(env.cluster.as_str());
            m.append(" ");
            m.append(env.command.as_str());
            Some(create_error_response(m.as_str()))
        },
    }
}

} // verus!

//! The command registry: the fixed table from a (domain, operation) pair
//! to a handler. Domains match case-insensitively, operations exactly;
//! every pair outside the table resolves to the unknown-command handler.

use vstd::prelude::*;
use crate::text::{eq_lowered, lower_seq, str_eq};

verus! {

/// The handler a (domain, operation) pair resolves to.
pub enum OperationKind {
    WaitForCommissionee,
    OnOffRead,
    OnOffWrite,
    Unknown,
}

/// Resolve a pair against the fixed table: the domain is compared after
/// ASCII case folding, the operation exactly as written.
pub open spec fn spec_resolve(domain: Seq<char>, operation: Seq<char>) -> OperationKind {
    if lower_seq(domain) == "delay"@ && operation == "wait-for-commissionee"@ {
        OperationKind::WaitForCommissionee
    } else if lower_seq(domain) == "onoff"@ && operation == "read"@ {
        OperationKind::OnOffRead
    } else if lower_seq(domain) == "onoff"@ && operation == "write"@ {
        OperationKind::OnOffWrite
    } else {
        OperationKind::Unknown
    }
}

/// Look a (domain, operation) pair up in the registry.
pub fn resolve(domain: &str, operation: &str) -> (k: OperationKind)
    ensures
        k == spec_resolve(domain@, operation@),
{
    if eq_lowered(domain, "delay") && str_eq(operation, "wait-for-commissionee") {
        OperationKind::WaitForCommissionee
    } else if eq_lowered(domain, "onoff") && str_eq(operation, "read") {
        OperationKind::OnOffRead
    } else if eq_lowered(domain, "onoff") && str_eq(operation, "write") {
        OperationKind::OnOffWrite
    } else {
        OperationKind::Unknown
    }
}

} // verus!

//! Operation kinds and the HTTP verbs they dispatch to.

use vstd::prelude::*;

verus! {

/// The operation kind a request is tagged with. Only `List` carries
/// configuration: an optional ceiling on how many values the pagination loop
/// may return (`None` means follow the cursors to exhaustion).
#[derive(Debug, Clone, Copy, PartialEq, Eq)]
pub enum Method {
    List { limit: Option<usize> },
    Create,
    Get,
    Update,
    Delete,
}

/// The HTTP verb of one wire-level call.
#[derive(Debug, Clone, Copy, PartialEq, Eq, Structural)]
pub enum Verb {
    Get,
    Post,
    Put,
    Delete,
}

/// Which verb each operation kind dispatches to: list and get read with GET,
/// create posts, update puts, delete deletes.
pub open spec fn spec_verb_of(m: Method) -> Verb {
    match m {
        Method::List { .. } => Verb::Get,
        Method::Create => Verb::Post,
        Method::Get => Verb::Get,
        Method::Update => Verb::Put,
        Method::Delete => Verb::Delete,
    }
}

/// Whether the request body is sent on the wire; it is ignored for reads and
/// deletes.
pub open spec fn spec_sends_body(m: Method) -> bool {
    m is Create || m is Update
}

/// The HTTP verb for an operation kind.
pub fn verb_of(m: &Method) -> (v: Verb)
    ensures
        v == spec_verb_of(*m),
{
    match m {
        Method::List { .. } => Verb::Get,
        Method::Create => Verb::Post,
        Method::Get => Verb::Get,
        Method::Update => Verb::Put,
        Method::Delete => Verb::Delete,
    }
}

} // verus!

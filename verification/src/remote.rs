//! Which failures of a saved SSH endpoint need a person.

use vstd::prelude::*;

use crate::error::{ErrorKind, IoError, IoErrorView};

verus! {

/// Whether another attempt is taken to be pointless until a person acts.
///
/// The rule is an assumption. What is settled is that a peer which says it cannot serve this client
/// (`Unsupported`) needs a person, and that a timeout does not; every other kind is taken to be
/// worth another attempt. A client that knows better judges for itself: an attempt and its task
/// take the judgement as given.
pub open spec fn failure_needs_attention(error: IoErrorView) -> bool {
    error.kind == ErrorKind::Unsupported
}

/// Whether another attempt is taken to be pointless until a person acts.
pub fn saved_ssh_failure_needs_attention(error: &IoError) -> (attention: bool)
    ensures
        attention == failure_needs_attention(error@),
{
    match error.kind {
        ErrorKind::Unsupported => true,
        _ => false,
    }
}

/// Under the assumed rule a person is called for by a peer that cannot serve this client and by
/// nothing else, whatever the failure says.
pub proof fn only_unsupported_needs_attention(error: IoError, attention: bool)
    requires
        call_ensures(saved_ssh_failure_needs_attention, (&error,), attention),
    ensures
        attention <==> error.kind == ErrorKind::Unsupported,
{
}

} // verus!

//! The caller-facing side of the publishing actor: how the outcome of one
//! publish round-trip is judged.  The mailbox send and the one-shot reply are
//! channel operations outside the library; their results come in as plain
//! values.

use vstd::prelude::*;

verus! {

/// Why a publish request surfaced as a failure.
#[derive(Debug, Clone, Copy, PartialEq, Eq, Structural)]
pub enum PublishError {
    /// The mailbox is closed: the actor is gone.
    MailboxClosed,
    /// The reply channel was dropped unanswered: the actor died mid-flight.
    ActorDied,
    /// The actor answered, but the bus client rejected the publish.
    Rejected,
}

/// Judge one publish round-trip: `sent` says whether the mailbox accepted
/// the request, `reply` what came back on the one-shot reply channel
/// (nothing, when it was dropped unanswered).  A publish succeeds exactly
/// when the request was accepted and the actor answered true.
pub fn publish_outcome(sent: bool, reply: Option<bool>) -> (r: Result<(), PublishError>)
    ensures
        r is Ok <==> sent && reply == Some(true),
        !sent ==> r == Result::<(), PublishError>::Err(PublishError::MailboxClosed),
        sent && reply is None ==> r == Result::<(), PublishError>::Err(PublishError::ActorDied),
        sent && reply == Some(false) ==> r == Result::<(), PublishError>::Err(
            PublishError::Rejected,
        ),
{
    if !sent {
        Err(PublishError::MailboxClosed)
    } else {
        match reply {
            Option::None => Err(PublishError::ActorDied),
            Option::Some(true) => Ok(()),
            Option::Some(false) => Err(PublishError::Rejected),
        }
    }
}

} // verus!

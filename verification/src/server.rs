use vstd::prelude::*;

verus! {

/// The reply to a publish request, given whether the event was handed to
/// the storage queue.
pub open spec fn spec_publish_reply(queued: bool) -> Seq<char> {
    if queued {
        "Event queued successfully"@
    } else {
        "Queue is closed"@
    }
}

/// The text the server answers a publish request with.
pub fn publish_reply(queued: bool) -> (reply: &'static str)
    ensures
        reply@ == spec_publish_reply(queued),
{
    if queued {
        "Event queued successfully"
    } else {
        "Queue is closed"
    }
}

} // verus!

//! Routing of inbound platform events.
//!
//! Events arrive concurrently from the platform connection, one dispatch
//! call per event. A received message increments the author's counter; a
//! joined member and an invoked command are side effects of the platform
//! client, so the dispatcher hands the embedding program an action to
//! perform rather than performing it here.

use vstd::prelude::*;

use crate::store::CounterStore;
use crate::store::increments_to;

verus! {

/// One inbound event from the platform connection.
pub enum PlatformEvent {
    /// A message was posted; `author_key` identifies who posted it.
    MessageReceived { author_key: u64 },
    /// A member joined; `member_ref` identifies the member.
    MemberJoined { member_ref: u64 },
    /// A command was invoked in a channel.
    CommandInvoked { name: String, reply_channel: u64 },
}

/// The side effect, if any, that the embedding program must carry out
/// after a dispatch: the platform calls themselves stay outside the core.
pub enum DispatchAction {
    /// Nothing left to do; the event was handled inside the store.
    Handled,
    /// Assign the configured role to the member that joined.
    AssignRole { member_ref: u64 },
    /// Answer the named command on its channel.
    ReplyToCommand { name: String, reply_channel: u64 },
}

/// Routes one event. A received message increments the author's count and
/// a failed increment is swallowed: it must never stop event processing.
/// The other variants leave the store untouched and come back as the
/// action the caller must perform.
pub fn dispatch(store: &mut CounterStore, event: PlatformEvent) -> (action: DispatchAction)
    requires
        old(store).wf(),
        old(store).aggregate() < u64::MAX,
    ensures
        final(store).wf(),
        event matches PlatformEvent::MessageReceived { author_key } ==> {
            &&& action is Handled
            &&& (!old(store).is_poisoned() ==> increments_to(
                *old(store),
                *final(store),
                author_key,
            ))
            &&& (old(store).is_poisoned() ==> *final(store) == *old(store))
        },
        event matches PlatformEvent::MemberJoined { member_ref } ==> {
            &&& *final(store) == *old(store)
            &&& (action matches DispatchAction::AssignRole { member_ref: m } && m == member_ref)
        },
        event matches PlatformEvent::CommandInvoked { name, reply_channel } ==> {
            &&& *final(store) == *old(store)
            &&& (action matches DispatchAction::ReplyToCommand { name: n, reply_channel: c }
                && n@ == name@ && c == reply_channel)
        },
{
    match event {
        PlatformEvent::MessageReceived { author_key } => {
            let _ = store.increment(author_key);
            DispatchAction::Handled
        },
        PlatformEvent::MemberJoined { member_ref } => {
            DispatchAction::AssignRole { member_ref }
        },
        PlatformEvent::CommandInvoked { name, reply_channel } => {
            DispatchAction::ReplyToCommand { name, reply_channel }
        },
    }
}

} // verus!

//! The reply listener: what to do with each update that Telegram delivers.
//!
//! The listener itself is a loop around the network client. Each turn of the
//! loop reports what it received as a [`ListenerEvent`] and does what
//! [`handler`] answers; an update that is dispatched is applied to the probe
//! list by [`update_handler`], apart from the loop.

use vstd::prelude::*;
use crate::query::{agent_id, telegram_id_of};
use crate::registry::{marked, PingList, Probe};

verus! {

/// What the listener needs to know of an update.
#[derive(Clone, Copy, Debug, PartialEq, Eq, Structural)]
pub enum Update {
    /// A new message, with the id of the chat that sent it, if that is known.
    NewMessage { sender: Option<i64> },
    /// Any other kind of update.
    Other,
}

/// The probe list after `update` was applied to `list`: a new message with a
/// known sender marks every probe of that sender as answered; any other
/// update changes nothing.
pub open spec fn after_update(list: Seq<Probe>, update: Update) -> Seq<Probe> {
    match update {
        Update::NewMessage { sender: Some(chat_id) } => marked(list, agent_id(chat_id)),
        _ => list,
    }
}

/// Applies one update to the probe list.
pub fn update_handler(list: &mut PingList, update: Update)
    ensures
        final(list)@ == after_update(old(list)@, update),
{
    match update {
        Update::NewMessage { sender } => match sender {
            Some(chat_id) => list.new_res(telegram_id_of(chat_id)),
            None => {},
        },
        Update::Other => {},
    }
}

/// Whether the listener still receives updates.
#[derive(Clone, Copy, Debug, PartialEq, Eq, Structural)]
pub enum ListenerState {
    /// Updates are received and dispatched.
    Listening,
    /// The stream of updates failed or ended; only a shutdown is awaited.
    Draining,
    /// The listener has stopped.
    Stopped,
}

/// What a turn of the listener's loop received.
#[derive(Clone, Copy, Debug, PartialEq, Eq, Structural)]
pub enum ListenerEvent {
    /// The process was asked to shut down.
    Shutdown,
    /// The network delivered an update.
    Received { update: Update },
    /// The stream of updates failed, or ended without an update.
    StreamClosed,
}

/// What the listener's loop does next.
#[derive(Clone, Copy, Debug, PartialEq, Eq, Structural)]
pub enum ListenerAction {
    /// Hand the update to a task of its own and go on receiving at once.
    Dispatch { update: Update },
    /// Receive nothing more; wait for the shutdown signal.
    AwaitShutdown,
    /// Leave the loop.
    Stop,
}

/// The listener's next state and action. It stops on a shutdown signal and on
/// nothing else; while it listens, every update is dispatched; once the stream
/// of updates has closed, it only waits to be shut down.
pub open spec fn listener_turn(state: ListenerState, event: ListenerEvent) -> (
    ListenerState,
    ListenerAction,
) {
    match (state, event) {
        (_, ListenerEvent::Shutdown) => (ListenerState::Stopped, ListenerAction::Stop),
        (ListenerState::Stopped, _) => (ListenerState::Stopped, ListenerAction::Stop),
        (ListenerState::Listening, ListenerEvent::Received { update }) => (
            ListenerState::Listening,
            ListenerAction::Dispatch { update },
        ),
        _ => (ListenerState::Draining, ListenerAction::AwaitShutdown),
    }
}

/// One turn of the listener's loop.
pub fn handler(state: ListenerState, event: ListenerEvent) -> (turn: (
    ListenerState,
    ListenerAction,
))
    ensures
        turn == listener_turn(state, event),
{
    match event {
        ListenerEvent::Shutdown => (ListenerState::Stopped, ListenerAction::Stop),
        ListenerEvent::Received { update } => match state {
            ListenerState::Listening => (
                ListenerState::Listening,
                ListenerAction::Dispatch { update },
            ),
            ListenerState::Draining => (ListenerState::Draining, ListenerAction::AwaitShutdown),
            ListenerState::Stopped => (ListenerState::Stopped, ListenerAction::Stop),
        },
        ListenerEvent::StreamClosed => match state {
            ListenerState::Stopped => (ListenerState::Stopped, ListenerAction::Stop),
            _ => (ListenerState::Draining, ListenerAction::AwaitShutdown),
        },
    }
}

/// The listener leaves its loop on a shutdown signal and on nothing else, and
/// it dispatches an update exactly when it is listening and was handed one:
/// that update, unchanged.
pub proof fn lemma_listener_stops_on_shutdown_only(state: ListenerState, event: ListenerEvent)
    requires
        state != ListenerState::Stopped,
    ensures
        listener_turn(state, event).1 == ListenerAction::Stop <==> event == ListenerEvent::Shutdown,
        listener_turn(state, event).0 == ListenerState::Stopped <==> event
            == ListenerEvent::Shutdown,
        listener_turn(state, event).1 is Dispatch <==> state == ListenerState::Listening
            && event is Received,
        listener_turn(state, event).1 is Dispatch ==> listener_turn(state, event).1
            == (ListenerAction::Dispatch { update: event->update }),
{
}

/// An update that is no new message, or has no known sender, or comes from a
/// chat without a probe on record, leaves the probe list as it is.
pub proof fn lemma_stray_update_is_dropped(list: Seq<Probe>, update: Update)
    requires
        update matches Update::NewMessage { sender: Some(chat_id) } ==> forall|i: int|
            0 <= i < list.len() ==> list[i].agent != agent_id(chat_id),
    ensures
        after_update(list, update) == list,
{
    assert(after_update(list, update) =~= list);
}

} // verus!

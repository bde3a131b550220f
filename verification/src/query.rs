//! One liveness query, from the caller's request to the answer.
//!
//! A query moves through a few states. Whoever runs it performs the action it
//! is handed (resolve the name, send the probe, wait) and reports what came of
//! it as the next event; the decisions, and every change to the probe list,
//! are made here.

use vstd::prelude::*;
use crate::clock::unix_now;
use crate::message::{
    Message, MessageSchema, BAD_REQUEST, INTERNAL_SERVER_ERROR, NOT_FOUND, OK,
};
use crate::registry::{evicted, has_reply, registered, PingList, Probe};
use crate::state::AppState;
use crate::text::{lowercase_of, texts};

pub mod lemmas;

verus! {

/// Seconds a query waits for a reply after its probe was sent.
pub const GRACE_SECS: u64 = 2;

/// The text of the probe message.
pub const PROBE_TEXT: &'static str = "/start";

/// How a query ended.
#[derive(Clone, Copy, Debug, PartialEq, Eq, Structural)]
pub enum PingOutcome {
    /// The bot replied within the grace period.
    Alive,
    /// The probe was delivered and no reply was seen in time.
    NoReply,
    /// The bot could not be found, or the probe could not be delivered.
    Unreachable,
    /// The bot is not one of those that may be checked; nothing was sent.
    Unauthorized,
}

/// Where a query stands.
#[derive(Clone, Copy, Debug, PartialEq, Eq, Structural)]
pub enum QueryState {
    /// The bot's name is being resolved.
    Resolving,
    /// The probe is on record and is being delivered.
    Sending { telegram_id: u64 },
    /// The probe was delivered; the grace period is running.
    Waiting { telegram_id: u64 },
    /// The query is over.
    Done { outcome: PingOutcome },
}

/// What happened to the action a query asked for.
#[derive(Clone, Copy, Debug, PartialEq, Eq, Structural)]
pub enum QueryEvent {
    /// The name belongs to the chat with this id.
    Resolved { chat_id: i64 },
    /// The name could not be resolved, or belongs to nobody.
    ResolveFailed,
    /// The probe was delivered.
    Sent,
    /// The probe could not be delivered.
    SendFailed,
    /// The grace period is over.
    GraceElapsed,
}

/// What a query asks to be done next.
#[derive(Clone, Copy, Debug, PartialEq, Eq, Structural)]
pub enum QueryAction {
    /// Resolve the bot's name, in the lower-case form the query was begun with.
    Resolve,
    /// Send [`PROBE_TEXT`] to the resolved chat.
    SendStart { telegram_id: u64 },
    /// Wait for this many seconds.
    Sleep { secs: u64 },
    /// Answer the caller; the query is over.
    Respond { outcome: PingOutcome },
    /// The event does not belong to the state the query is in; nothing changed.
    Ignore,
}

/// One turn of a query: the state it has reached, the action it asks for,
/// and the probe list as the turn leaves it.
pub struct Turn {
    /// The state the query is in after the turn.
    pub state: QueryState,
    /// What the query asks to be done next.
    pub action: QueryAction,
    /// The probes on record after the turn.
    pub list: Seq<Probe>,
}

/// The id under which the chat `chat_id` is kept on the probe list: the same
/// 64 bits, read as an unsigned number.
pub open spec fn agent_id(chat_id: i64) -> u64 {
    chat_id as u64
}

/// The state a query begins in and the first thing it asks for: a bot that
/// is listed is to be resolved, any other is refused at once.
pub open spec fn first_step(listed: bool) -> (QueryState, QueryAction) {
    if listed {
        (QueryState::Resolving, QueryAction::Resolve)
    } else {
        (
            QueryState::Done { outcome: PingOutcome::Unauthorized },
            QueryAction::Respond { outcome: PingOutcome::Unauthorized },
        )
    }
}

/// The first turn of a query, with `list` on record.
pub open spec fn first_turn(listed: bool, list: Seq<Probe>) -> Turn {
    Turn { state: first_step(listed).0, action: first_step(listed).1, list }
}

/// The turn that ends a query with `outcome`.
pub open spec fn last_turn(outcome: PingOutcome, list: Seq<Probe>) -> Turn {
    Turn { state: QueryState::Done { outcome }, action: QueryAction::Respond { outcome }, list }
}

/// The turn that follows when a query in `state` learns of `event` at time
/// `now`, with `list` on record.
///
/// - A resolved name puts a fresh probe on record and asks for the probe to
///   be sent; a name that cannot be resolved ends the query as unreachable.
/// - A delivered probe starts the grace period; a probe that cannot be
///   delivered ends the query as unreachable, and its record stays until it
///   is stale.
/// - When the grace period is over, stale probes are dropped, and the query
///   ends as alive exactly if a reply is then on record for the bot.
/// - Any other event is ignored.
pub open spec fn next_turn(state: QueryState, event: QueryEvent, list: Seq<Probe>, now: i64) -> Turn {
    match (state, event) {
        (QueryState::Resolving, QueryEvent::Resolved { chat_id }) => Turn {
            state: QueryState::Sending { telegram_id: agent_id(chat_id) },
            action: QueryAction::SendStart { telegram_id: agent_id(chat_id) },
            list: registered(list, agent_id(chat_id), now),
        },
        (QueryState::Resolving, QueryEvent::ResolveFailed) => last_turn(
            PingOutcome::Unreachable,
            list,
        ),
        (QueryState::Sending { telegram_id }, QueryEvent::Sent) => Turn {
            state: QueryState::Waiting { telegram_id },
            action: QueryAction::Sleep { secs: GRACE_SECS },
            list,
        },
        (QueryState::Sending { telegram_id }, QueryEvent::SendFailed) => last_turn(
            PingOutcome::Unreachable,
            list,
        ),
        (QueryState::Waiting { telegram_id }, QueryEvent::GraceElapsed) => last_turn(
            if has_reply(evicted(list, now as int), telegram_id) {
                PingOutcome::Alive
            } else {
                PingOutcome::NoReply
            },
            evicted(list, now as int),
        ),
        _ => Turn { state, action: QueryAction::Ignore, list },
    }
}

/// What the caller is told when a query ends with `outcome`.
pub open spec fn answer(outcome: PingOutcome) -> Message {
    match outcome {
        PingOutcome::Alive => Message { message: "Alive"@, status: true, status_code: OK },
        PingOutcome::NoReply => Message {
            message: "No response from the bot"@,
            status: false,
            status_code: NOT_FOUND,
        },
        PingOutcome::Unreachable => Message {
            message: "Cant send to the bot"@,
            status: false,
            status_code: INTERNAL_SERVER_ERROR,
        },
        PingOutcome::Unauthorized => Message {
            message: "Is not authorized to check the status of this bot"@,
            status: false,
            status_code: BAD_REQUEST,
        },
    }
}

/// A query as it begins.
pub struct Begun {
    /// The bot's name in lower case: the form it is looked up and resolved in.
    pub username: String,
    /// The state the query is in.
    pub state: QueryState,
    /// What to do first.
    pub action: QueryAction,
}

/// The id under which the chat `chat_id` is kept on the probe list.
pub fn telegram_id_of(chat_id: i64) -> (id: u64)
    ensures
        id == agent_id(chat_id),
{
    chat_id as u64
}

/// Begins a query for the bot called `handle`. A bot that is not listed in
/// `app` is refused at once, and nothing is asked of the network; for a
/// listed bot the name is to be resolved.
pub fn begin(app: &AppState, handle: &str) -> (begun: Begun)
    ensures
        begun.username@ == lowercase_of(handle@),
        (begun.state, begun.action) == first_step(
            texts(app.bots@).contains(lowercase_of(handle@)),
        ),
{
    let username = handle.to_lowercase();
    if app.has_bot(username.as_str()) {
        Begun { username, state: QueryState::Resolving, action: QueryAction::Resolve }
    } else {
        Begun {
            username,
            state: QueryState::Done { outcome: PingOutcome::Unauthorized },
            action: QueryAction::Respond { outcome: PingOutcome::Unauthorized },
        }
    }
}

/// Takes a query in `state` one turn further on `event`, at time `now`.
/// Returns the new state and the action to perform; `list` is changed as the
/// turn requires.
pub fn step_at(state: QueryState, event: QueryEvent, list: &mut PingList, now: i64) -> (turn: (
    QueryState,
    QueryAction,
))
    ensures
        turn.0 == next_turn(state, event, old(list)@, now).state,
        turn.1 == next_turn(state, event, old(list)@, now).action,
        final(list)@ == next_turn(state, event, old(list)@, now).list,
{
    match state {
        QueryState::Resolving => match event {
            QueryEvent::Resolved { chat_id } => {
                let telegram_id = telegram_id_of(chat_id);
                list.add_new_at(telegram_id, now);
                (QueryState::Sending { telegram_id }, QueryAction::SendStart { telegram_id })
            },
            QueryEvent::ResolveFailed => finish(PingOutcome::Unreachable),
            _ => (state, QueryAction::Ignore),
        },
        QueryState::Sending { telegram_id } => match event {
            QueryEvent::Sent => (
                QueryState::Waiting { telegram_id },
                QueryAction::Sleep { secs: GRACE_SECS },
            ),
            QueryEvent::SendFailed => finish(PingOutcome::Unreachable),
            _ => (state, QueryAction::Ignore),
        },
        QueryState::Waiting { telegram_id } => match event {
            QueryEvent::GraceElapsed => {
                if list.check_at(telegram_id, now) {
                    finish(PingOutcome::Alive)
                } else {
                    finish(PingOutcome::NoReply)
                }
            },
            _ => (state, QueryAction::Ignore),
        },
        QueryState::Done { .. } => (state, QueryAction::Ignore),
    }
}

/// Takes a query in `state` one turn further on `event`, at the time the
/// system clock shows.
pub fn step(state: QueryState, event: QueryEvent, list: &mut PingList) -> (turn: (
    QueryState,
    QueryAction,
))
    ensures
        exists|now: i64|
            {
                let t = #[trigger] next_turn(state, event, old(list)@, now);
                turn.0 == t.state && turn.1 == t.action && final(list)@ == t.list
            },
{
    let now = unix_now();
    step_at(state, event, list, now)
}

/// The state and the action that end a query with `outcome`.
fn finish(outcome: PingOutcome) -> (turn: (QueryState, QueryAction))
    ensures
        turn.0 == (QueryState::Done { outcome }),
        turn.1 == (QueryAction::Respond { outcome }),
{
    (QueryState::Done { outcome }, QueryAction::Respond { outcome })
}

/// The outcome of a query that is over; `None` while it is running.
pub fn outcome_of(state: QueryState) -> (outcome: Option<PingOutcome>)
    ensures
        outcome == match state {
            QueryState::Done { outcome } => Some(outcome),
            _ => None,
        },
{
    match state {
        QueryState::Done { outcome } => Some(outcome),
        _ => None,
    }
}

/// The answer sent to the caller when a query ends with `outcome`.
pub fn respond(outcome: PingOutcome) -> (msg: MessageSchema<'static>)
    ensures
        msg@ == answer(outcome),
{
    match outcome {
        PingOutcome::Alive => MessageSchema::new("Alive"),
        PingOutcome::NoReply => MessageSchema::new("No response from the bot").code(NOT_FOUND),
        PingOutcome::Unreachable => MessageSchema::new("Cant send to the bot").code(
            INTERNAL_SERVER_ERROR,
        ),
        PingOutcome::Unauthorized => MessageSchema::new(
            "Is not authorized to check the status of this bot",
        ).code(BAD_REQUEST),
    }
}

} // verus!

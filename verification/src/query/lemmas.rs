//! What holds of every query, whatever events it is fed.

use vstd::prelude::*;
use crate::query::{
    agent_id, first_turn, last_turn, next_turn, PingOutcome, QueryAction, QueryEvent, QueryState,
    Turn,
};
use crate::registry::lemmas::{lemma_answered_probe_is_seen, lemma_has_reply_evicted};
use crate::registry::{evicted, has_reply, is_stale, marked, registered, Probe, STALE_AFTER_SECS};

verus! {

/// An event, and the time at which the query learns of it.
pub struct Input {
    /// What happened.
    pub event: QueryEvent,
    /// Unix time, in seconds, at which the query is told.
    pub now: i64,
}

/// The turn a query is at after it was fed `inputs`, one after the other,
/// from the turn `start`.
pub open spec fn run(start: Turn, inputs: Seq<Input>) -> Turn
    decreases inputs.len(),
{
    if inputs.len() == 0 {
        start
    } else {
        let before = run(start, inputs.drop_last());
        next_turn(before.state, inputs.last().event, before.list, inputs.last().now)
    }
}

/// The id of a chat with a non-negative id is that number; a negative id
/// stands for the number 2^64 above it.
pub proof fn lemma_agent_id(chat_id: i64)
    ensures
        chat_id >= 0 ==> agent_id(chat_id) == chat_id,
        chat_id < 0 ==> agent_id(chat_id) == chat_id + 0x1_0000_0000_0000_0000,
{
    assert(chat_id >= 0 ==> chat_id as u64 == chat_id) by (bit_vector);
    assert(chat_id < 0 ==> chat_id as u64 == chat_id + 0x1_0000_0000_0000_0000) by (bit_vector);
}

/// A query answers once. The caller is answered on the very turn on which the
/// query ends, with the outcome it ends with; a query that is over ignores
/// every event and leaves the probe list alone.
pub proof fn lemma_one_answer(state: QueryState, event: QueryEvent, list: Seq<Probe>, now: i64)
    ensures
        ({
            let t = next_turn(state, event, list, now);
            &&& state is Done ==> t.state == state && t.action == QueryAction::Ignore && t.list
                == list
            &&& forall|outcome: PingOutcome|
                t.action == (QueryAction::Respond { outcome }) <==> !(state is Done) && t.state
                    == (QueryState::Done { outcome })
        }),
{
}

/// What a turn does to the probe list. A probe is sent only for a bot whose
/// name was just resolved, and exactly then a probe is put on record, for that
/// bot and at that time. The stale probes are dropped exactly when a grace
/// period ends. Every other turn leaves the list as it is, and no turn asks
/// to resolve a name.
pub proof fn lemma_turn_effect_on_list(
    state: QueryState,
    event: QueryEvent,
    list: Seq<Probe>,
    now: i64,
)
    ensures
        ({
            let t = next_turn(state, event, list, now);
            let resolved = state == QueryState::Resolving && event is Resolved;
            let elapsed = state is Waiting && event == QueryEvent::GraceElapsed;
            &&& t.action is SendStart <==> resolved
            &&& resolved ==> t.action == (QueryAction::SendStart {
                telegram_id: agent_id(event->chat_id),
            }) && t.list == registered(list, agent_id(event->chat_id), now)
            &&& elapsed ==> t.list == evicted(list, now as int)
            &&& !resolved && !elapsed ==> t.list == list
            &&& t.action != QueryAction::Resolve
        }),
{
}

/// Once a query is over, nothing it is fed changes its outcome or the probe
/// list, and nothing more is asked for.
pub proof fn lemma_done_is_final(outcome: PingOutcome, list: Seq<Probe>, inputs: Seq<Input>)
    ensures
        run(last_turn(outcome, list), inputs).state == (QueryState::Done { outcome }),
        run(last_turn(outcome, list), inputs).list == list,
        inputs.len() > 0 ==> run(last_turn(outcome, list), inputs).action == QueryAction::Ignore,
    decreases inputs.len(),
{
    if inputs.len() > 0 {
        lemma_done_is_final(outcome, list, inputs.drop_last());
    }
}

/// A query for a bot that is not listed is refused, and whatever it is fed
/// afterwards, no name is resolved, no probe is sent and none is recorded.
pub proof fn lemma_unlisted_never_probes(list: Seq<Probe>, inputs: Seq<Input>)
    ensures
        first_turn(false, list).action == (QueryAction::Respond {
            outcome: PingOutcome::Unauthorized,
        }),
        run(first_turn(false, list), inputs).state == (QueryState::Done {
            outcome: PingOutcome::Unauthorized,
        }),
        run(first_turn(false, list), inputs).list == list,
        !(run(first_turn(false, list), inputs).action is SendStart),
        !(run(first_turn(false, list), inputs).action is Resolve),
{
    assert(first_turn(false, list) == last_turn(PingOutcome::Unauthorized, list));
    lemma_done_is_final(PingOutcome::Unauthorized, list, inputs);
}

/// The grace period decides. A query whose grace period ends with no reply on
/// record ends as "no reply", and stays so when the reply arrives later: the
/// late reply is marked on the list, where a later reader sees it for as long
/// as some probe of the bot is not stale.
pub proof fn lemma_late_reply_is_not_seen(
    telegram_id: u64,
    list: Seq<Probe>,
    now: i64,
    inputs: Seq<Input>,
    later: int,
)
    requires
        !has_reply(evicted(list, now as int), telegram_id),
    ensures
        ({
            let t = next_turn(
                QueryState::Waiting { telegram_id },
                QueryEvent::GraceElapsed,
                list,
                now,
            );
            let late = Turn { list: marked(t.list, telegram_id), ..t };
            &&& t == last_turn(PingOutcome::NoReply, evicted(list, now as int))
            &&& run(late, inputs).state == (QueryState::Done { outcome: PingOutcome::NoReply })
            &&& has_reply(evicted(late.list, later), telegram_id) <==> exists|i: int|
                0 <= i < t.list.len() && t.list[i].agent == telegram_id && !is_stale(
                    t.list[i],
                    later,
                )
        }),
{
    let swept = evicted(list, now as int);
    lemma_done_is_final(PingOutcome::NoReply, marked(swept, telegram_id), inputs);
    crate::registry::lemmas::lemma_marked_then_checked(swept, telegram_id, later);
}

/// A whole query that goes well: the name resolves, the probe is delivered,
/// the bot replies during the grace period, and the query ends as alive,
/// provided the grace period ends before the probe is stale.
pub proof fn lemma_reply_in_time_is_alive(
    list: Seq<Probe>,
    chat_id: i64,
    sent: i64,
    delivered: i64,
    elapsed: i64,
)
    requires
        elapsed - sent <= STALE_AFTER_SECS,
    ensures
        ({
            let id = agent_id(chat_id);
            let resolved = next_turn(
                QueryState::Resolving,
                QueryEvent::Resolved { chat_id },
                list,
                sent,
            );
            let waiting = next_turn(resolved.state, QueryEvent::Sent, resolved.list, delivered);
            let replied = marked(waiting.list, id);
            let done = next_turn(waiting.state, QueryEvent::GraceElapsed, replied, elapsed);
            &&& resolved.action == (QueryAction::SendStart { telegram_id: id })
            &&& waiting.action == (QueryAction::Sleep { secs: crate::query::GRACE_SECS })
            &&& done.state == (QueryState::Done { outcome: PingOutcome::Alive })
            &&& done.action == (QueryAction::Respond { outcome: PingOutcome::Alive })
        }),
{
    lemma_answered_probe_is_seen(list, agent_id(chat_id), sent, elapsed as int);
}

/// A whole query that gets no reply: with no reply on record for the bot when
/// the name resolves, and none marked since, the query ends as "no reply".
pub proof fn lemma_silence_is_no_reply(
    list: Seq<Probe>,
    chat_id: i64,
    sent: i64,
    delivered: i64,
    elapsed: i64,
)
    requires
        !has_reply(list, agent_id(chat_id)),
    ensures
        ({
            let resolved = next_turn(
                QueryState::Resolving,
                QueryEvent::Resolved { chat_id },
                list,
                sent,
            );
            let waiting = next_turn(resolved.state, QueryEvent::Sent, resolved.list, delivered);
            let done = next_turn(waiting.state, QueryEvent::GraceElapsed, waiting.list, elapsed);
            done.state == (QueryState::Done { outcome: PingOutcome::NoReply })
        }),
{
    crate::registry::lemmas::lemma_unanswered_probe_expires(
        list,
        agent_id(chat_id),
        sent,
        elapsed as int,
    );
}

/// A query that cannot reach its bot ends as unreachable. When the name does
/// not resolve, nothing is recorded; when the probe cannot be delivered, its
/// record stays on the list, unanswered, until a read finds it stale.
pub proof fn lemma_unreachable(list: Seq<Probe>, chat_id: i64, sent: i64, failed: i64, later: int)
    ensures
        next_turn(QueryState::Resolving, QueryEvent::ResolveFailed, list, sent) == last_turn(
            PingOutcome::Unreachable,
            list,
        ),
        ({
            let resolved = next_turn(
                QueryState::Resolving,
                QueryEvent::Resolved { chat_id },
                list,
                sent,
            );
            let undelivered = next_turn(
                resolved.state,
                QueryEvent::SendFailed,
                resolved.list,
                failed,
            );
            &&& undelivered == last_turn(
                PingOutcome::Unreachable,
                registered(list, agent_id(chat_id), sent),
            )
            &&& later - sent > STALE_AFTER_SECS ==> evicted(undelivered.list, later) == evicted(
                list,
                later,
            )
        }),
{
    crate::registry::lemmas::lemma_unanswered_probe_expires(list, agent_id(chat_id), sent, later);
}

} // verus!

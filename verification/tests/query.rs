use telepingbot::listener::{update_handler, Update};
use telepingbot::query::{
    begin, outcome_of, respond, step, step_at, telegram_id_of, PingOutcome, QueryAction,
    QueryEvent, QueryState, GRACE_SECS, PROBE_TEXT,
};
use telepingbot::registry::PingList;
use telepingbot::state::AppState;

/// A stand-in for the messaging network: it knows some bots by name, may fail
/// to deliver, and counts what it was asked to do.
struct Network {
    known: Vec<(String, i64)>,
    deliver: bool,
    replies_after: Option<i64>,
    resolve_calls: usize,
    send_calls: usize,
    sent_texts: Vec<String>,
    slept: u64,
}

impl Network {
    fn new(known: &[(&str, i64)]) -> Self {
        Network {
            known: known.iter().map(|(n, id)| (n.to_string(), *id)).collect(),
            deliver: true,
            replies_after: None,
            resolve_calls: 0,
            send_calls: 0,
            sent_texts: Vec::new(),
            slept: 0,
        }
    }
}

fn app() -> AppState {
    AppState::new(
        vec!["@GoodBot".to_string(), "@ghostbot".to_string()],
        vec!["secret".to_string()],
    )
}

/// Runs one query to its end. Time starts at `start` and moves only while the
/// query sleeps; a reply, if the network gives one, arrives `replies_after`
/// seconds after the probe was sent.
fn run_query(
    app: &AppState,
    net: &mut Network,
    list: &mut PingList,
    handle: &str,
    start: i64,
) -> PingOutcome {
    let begun = begin(app, handle);
    let mut state = begun.state;
    let mut action = begun.action;
    let mut now = start;
    let mut chat: Option<i64> = None;
    loop {
        let event = match action {
            QueryAction::Resolve => {
                net.resolve_calls += 1;
                match net.known.iter().find(|(n, _)| *n == begun.username) {
                    Some((_, id)) => {
                        chat = Some(*id);
                        QueryEvent::Resolved { chat_id: *id }
                    }
                    None => QueryEvent::ResolveFailed,
                }
            }
            QueryAction::SendStart { telegram_id } => {
                net.send_calls += 1;
                net.sent_texts.push(PROBE_TEXT.to_string());
                assert_eq!(Some(telegram_id), chat.map(telegram_id_of));
                if net.deliver {
                    QueryEvent::Sent
                } else {
                    QueryEvent::SendFailed
                }
            }
            QueryAction::Sleep { secs } => {
                let wake = now + secs as i64;
                if let Some(delay) = net.replies_after {
                    if now + delay <= wake {
                        update_handler(list, Update::NewMessage { sender: chat });
                    }
                }
                net.slept += secs;
                now = wake;
                QueryEvent::GraceElapsed
            }
            QueryAction::Respond { outcome } => {
                assert_eq!(outcome_of(state), Some(outcome));
                return outcome;
            }
            QueryAction::Ignore => panic!("the driver sent an event out of turn"),
        };
        let turn = step_at(state, event, list, now);
        state = turn.0;
        action = turn.1;
    }
}

fn flags(list: &PingList) -> Vec<(u64, i64, bool)> {
    (0..list.len())
        .map(|i| list.get(i).unwrap())
        .map(|b| (b.telegram_id(), b.ping_in(), b.is_response()))
        .collect()
}

#[test]
fn grace_period_and_probe_text() {
    assert_eq!(GRACE_SECS, 2);
    assert_eq!(PROBE_TEXT, "/start");
}

#[test]
fn unknown_bot_is_unauthorized_and_nothing_is_sent() {
    let app = app();
    let mut net = Network::new(&[("@unknownbot", 1), ("unknownbot", 1)]);
    let mut list = PingList::new();
    let outcome = run_query(&app, &mut net, &mut list, "@unknownbot", 1_000);
    assert_eq!(outcome, PingOutcome::Unauthorized);
    assert_eq!(net.send_calls, 0);
    assert_eq!(net.resolve_calls, 0);
    assert_eq!(net.slept, 0);
    assert_eq!(list.len(), 0);
}

#[test]
fn unlisted_bot_is_refused_at_once() {
    let app = app();
    for handle in ["nobody", "", "goodbot2", "@goodbot", "good bot"] {
        let begun = begin(&app, handle);
        assert_eq!(begun.state, QueryState::Done { outcome: PingOutcome::Unauthorized });
        assert_eq!(begun.action, QueryAction::Respond { outcome: PingOutcome::Unauthorized });
    }
}

#[test]
fn refused_query_ignores_every_event() {
    let app = app();
    let begun = begin(&app, "nobody");
    let mut list = PingList::new();
    list.add_new_at(5, 0);
    let events = [
        QueryEvent::Resolved { chat_id: 5 },
        QueryEvent::ResolveFailed,
        QueryEvent::Sent,
        QueryEvent::SendFailed,
        QueryEvent::GraceElapsed,
    ];
    let mut state = begun.state;
    for event in events {
        let turn = step_at(state, event, &mut list, 1_000);
        assert_eq!(turn, (begun.state, QueryAction::Ignore));
        state = turn.0;
    }
    assert_eq!(flags(&list), vec![(5, 0, false)]);
}

#[test]
fn listed_bot_is_resolved_in_lower_case() {
    let app = app();
    let begun = begin(&app, "GoodBot");
    assert_eq!(begun.username, "goodbot");
    assert_eq!(begun.state, QueryState::Resolving);
    assert_eq!(begun.action, QueryAction::Resolve);
    assert_eq!(outcome_of(begun.state), None);
}

#[test]
fn bot_that_replies_in_time_is_alive() {
    let app = app();
    let mut net = Network::new(&[("goodbot", 42)]);
    net.replies_after = Some(1);
    let mut list = PingList::new();
    let outcome = run_query(&app, &mut net, &mut list, "GOODBOT", 1_000);
    assert_eq!(outcome, PingOutcome::Alive);
    assert_eq!((net.resolve_calls, net.send_calls, net.slept), (1, 1, 2));
    assert_eq!(net.sent_texts, vec!["/start".to_string()]);
    assert_eq!(flags(&list), vec![(42, 1_000, true)]);
}

#[test]
fn bot_that_replies_at_the_deadline_is_alive() {
    let app = app();
    let mut net = Network::new(&[("goodbot", 42)]);
    net.replies_after = Some(2);
    let mut list = PingList::new();
    assert_eq!(run_query(&app, &mut net, &mut list, "goodbot", 0), PingOutcome::Alive);
}

#[test]
fn silent_bot_gets_no_reply() {
    let app = app();
    let mut net = Network::new(&[("goodbot", 42)]);
    let mut list = PingList::new();
    let outcome = run_query(&app, &mut net, &mut list, "goodbot", 1_000);
    assert_eq!(outcome, PingOutcome::NoReply);
    assert_eq!((net.resolve_calls, net.send_calls, net.slept), (1, 1, 2));
    assert_eq!(flags(&list), vec![(42, 1_000, false)]);
}

#[test]
fn reply_after_the_grace_period_does_not_count() {
    let app = app();
    let mut net = Network::new(&[("goodbot", 42)]);
    net.replies_after = Some(3);
    let mut list = PingList::new();
    let outcome = run_query(&app, &mut net, &mut list, "goodbot", 1_000);
    assert_eq!(outcome, PingOutcome::NoReply);

    update_handler(&mut list, Update::NewMessage { sender: Some(42) });
    assert_eq!(flags(&list), vec![(42, 1_000, true)]);
    assert!(list.check_at(42, 1_003));
    assert!(list.check_at(42, 1_060));
    assert!(!list.check_at(42, 1_061));
}

#[test]
fn late_reply_serves_an_overlapping_query() {
    let app = app();
    let mut list = PingList::new();
    let mut silent = Network::new(&[("goodbot", 42)]);
    assert_eq!(run_query(&app, &mut silent, &mut list, "goodbot", 1_000), PingOutcome::NoReply);
    update_handler(&mut list, Update::NewMessage { sender: Some(42) });
    assert_eq!(run_query(&app, &mut silent, &mut list, "goodbot", 1_010), PingOutcome::Alive);
    assert_eq!(flags(&list), vec![(42, 1_000, true), (42, 1_010, false)]);
    assert_eq!(run_query(&app, &mut silent, &mut list, "goodbot", 1_070), PingOutcome::NoReply);
    assert_eq!(flags(&list), vec![(42, 1_070, false)]);
}

#[test]
fn unresolvable_bot_is_unreachable_and_leaves_no_record() {
    let app = app();
    let mut net = Network::new(&[("goodbot", 42)]);
    let mut list = PingList::new();
    let outcome = run_query(&app, &mut net, &mut list, "ghostbot", 1_000);
    assert_eq!(outcome, PingOutcome::Unreachable);
    assert_eq!((net.resolve_calls, net.send_calls, net.slept), (1, 0, 0));
    assert_eq!(list.len(), 0);
}

#[test]
fn undelivered_probe_is_unreachable_and_its_record_expires() {
    let app = app();
    let mut net = Network::new(&[("goodbot", 42)]);
    net.deliver = false;
    let mut list = PingList::new();
    let outcome = run_query(&app, &mut net, &mut list, "goodbot", 1_000);
    assert_eq!(outcome, PingOutcome::Unreachable);
    assert_eq!((net.resolve_calls, net.send_calls, net.slept), (1, 1, 0));
    assert_eq!(flags(&list), vec![(42, 1_000, false)]);
    assert!(!list.check_at(42, 1_060));
    assert_eq!(list.len(), 1);
    assert!(!list.check_at(42, 1_061));
    assert_eq!(list.len(), 0);
}

#[test]
fn step_by_step_through_a_query() {
    let mut list = PingList::new();
    let turn = step_at(QueryState::Resolving, QueryEvent::Resolved { chat_id: 77 }, &mut list, 500);
    assert_eq!(turn, (QueryState::Sending { telegram_id: 77 }, QueryAction::SendStart { telegram_id: 77 }));
    assert_eq!(flags(&list), vec![(77, 500, false)]);

    let turn = step_at(turn.0, QueryEvent::Sent, &mut list, 501);
    assert_eq!(turn, (QueryState::Waiting { telegram_id: 77 }, QueryAction::Sleep { secs: 2 }));
    assert_eq!(flags(&list), vec![(77, 500, false)]);

    list.new_res(77);
    let turn = step_at(turn.0, QueryEvent::GraceElapsed, &mut list, 503);
    assert_eq!(
        turn,
        (
            QueryState::Done { outcome: PingOutcome::Alive },
            QueryAction::Respond { outcome: PingOutcome::Alive }
        )
    );
    assert_eq!(outcome_of(turn.0), Some(PingOutcome::Alive));
}

#[test]
fn grace_elapsed_evicts_stale_probes() {
    let mut list = PingList::new();
    list.add_new_at(1, 0);
    list.add_new_at(2, 100);
    list.new_res(1);
    let turn = step_at(QueryState::Waiting { telegram_id: 1 }, QueryEvent::GraceElapsed, &mut list, 100);
    assert_eq!(turn.0, QueryState::Done { outcome: PingOutcome::NoReply });
    assert_eq!(flags(&list), vec![(2, 100, false)]);
}

#[test]
fn events_out_of_turn_are_ignored() {
    let mut list = PingList::new();
    list.add_new_at(9, 0);
    let cases = [
        (QueryState::Resolving, QueryEvent::Sent),
        (QueryState::Resolving, QueryEvent::SendFailed),
        (QueryState::Resolving, QueryEvent::GraceElapsed),
        (QueryState::Sending { telegram_id: 9 }, QueryEvent::Resolved { chat_id: 9 }),
        (QueryState::Sending { telegram_id: 9 }, QueryEvent::ResolveFailed),
        (QueryState::Sending { telegram_id: 9 }, QueryEvent::GraceElapsed),
        (QueryState::Waiting { telegram_id: 9 }, QueryEvent::Resolved { chat_id: 9 }),
        (QueryState::Waiting { telegram_id: 9 }, QueryEvent::Sent),
        (QueryState::Waiting { telegram_id: 9 }, QueryEvent::SendFailed),
        (QueryState::Done { outcome: PingOutcome::Alive }, QueryEvent::GraceElapsed),
    ];
    for (state, event) in cases {
        assert_eq!(step_at(state, event, &mut list, 1_000), (state, QueryAction::Ignore));
        assert_eq!(flags(&list), vec![(9, 0, false)]);
    }
}

#[test]
fn step_on_system_clock_runs_a_query() {
    let mut list = PingList::new();
    let turn = step(QueryState::Resolving, QueryEvent::Resolved { chat_id: 3 }, &mut list);
    assert_eq!(turn.1, QueryAction::SendStart { telegram_id: 3 });
    assert_eq!(list.len(), 1);
    let turn = step(turn.0, QueryEvent::Sent, &mut list);
    assert_eq!(turn.1, QueryAction::Sleep { secs: 2 });
    list.new_res(3);
    let turn = step(turn.0, QueryEvent::GraceElapsed, &mut list);
    assert_eq!(turn.1, QueryAction::Respond { outcome: PingOutcome::Alive });
}

#[test]
fn telegram_id_of_keeps_the_bits() {
    assert_eq!(telegram_id_of(0), 0);
    assert_eq!(telegram_id_of(42), 42);
    assert_eq!(telegram_id_of(i64::MAX), 9_223_372_036_854_775_807);
    assert_eq!(telegram_id_of(-1), u64::MAX);
    assert_eq!(telegram_id_of(-1_001_234_567_890), 18_446_743_072_474_983_726);
    assert_eq!(telegram_id_of(i64::MIN), 9_223_372_036_854_775_808);
}

#[test]
fn respond_gives_message_and_status_for_each_outcome() {
    let alive = respond(PingOutcome::Alive);
    assert_eq!((alive.message(), alive.status(), alive.status_code()), ("Alive", true, 200));
    let silent = respond(PingOutcome::NoReply);
    assert_eq!(
        (silent.message(), silent.status(), silent.status_code()),
        ("No response from the bot", false, 404)
    );
    let lost = respond(PingOutcome::Unreachable);
    assert_eq!(
        (lost.message(), lost.status(), lost.status_code()),
        ("Cant send to the bot", false, 500)
    );
    let refused = respond(PingOutcome::Unauthorized);
    assert_eq!(
        (refused.message(), refused.status(), refused.status_code()),
        ("Is not authorized to check the status of this bot", false, 400)
    );
}

//! What the operations on the probe list guarantee, whatever the list holds.

use vstd::prelude::*;
use crate::registry::{answered, evicted, has_reply, is_stale, marked, registered, Probe};

verus! {

/// Eviction removes all the stale probes and nothing else: a probe is on the
/// list after eviction exactly if it was on the list before and is not stale.
pub proof fn lemma_evicted_contains(s: Seq<Probe>, now: int, p: Probe)
    ensures
        evicted(s, now).contains(p) <==> s.contains(p) && !is_stale(p, now),
{
    let keep = |q: Probe| !is_stale(q, now);
    if evicted(s, now).contains(p) {
        s.lemma_filter_contains_rev(keep, p);
        let j = choose|j: int| 0 <= j < s.filter(keep).len() && s.filter(keep)[j] == p;
        s.lemma_filter_pred(keep, j);
    }
    if s.contains(p) && !is_stale(p, now) {
        let i = choose|i: int| 0 <= i < s.len() && s[i] == p;
        s.lemma_filter_contains(keep, i);
    }
}

/// Eviction never lengthens the list, and leaves a list without stale probes
/// as it is.
pub proof fn lemma_evicted_len(s: Seq<Probe>, now: int)
    ensures
        evicted(s, now).len() <= s.len(),
        (forall|i: int| 0 <= i < s.len() ==> !is_stale(s[i], now)) ==> evicted(s, now) == s,
    decreases s.len(),
{
    let keep = |q: Probe| !is_stale(q, now);
    reveal(Seq::filter);
    if s.len() > 0 {
        lemma_evicted_len(s.drop_last(), now);
        if forall|i: int| 0 <= i < s.len() ==> !is_stale(s[i], now) {
            assert(forall|i: int|
                0 <= i < s.drop_last().len() ==> !is_stale(#[trigger] s.drop_last()[i], now)) by {
                assert(forall|i: int| 0 <= i < s.len() - 1 ==> s.drop_last()[i] == s[i]);
            }
            assert(s.drop_last().filter(keep) == s.drop_last());
            assert(keep(s.last()));
            assert(s.drop_last().push(s.last()) =~= s);
        }
    }
}

/// Eviction judges each probe on its own and keeps the order of those it
/// leaves: a list of one probe becomes empty if the probe is stale and is left
/// alone if not, and evicting a list made of two parts is evicting each part.
pub proof fn lemma_evicted_piecewise(a: Seq<Probe>, b: Seq<Probe>, p: Probe, now: int)
    ensures
        evicted(a + b, now) == evicted(a, now) + evicted(b, now),
        evicted(seq![p], now) == if is_stale(p, now) {
            Seq::<Probe>::empty()
        } else {
            seq![p]
        },
        evicted(Seq::<Probe>::empty(), now) == Seq::<Probe>::empty(),
{
    let keep = |q: Probe| !is_stale(q, now);
    Seq::filter_distributes_over_add(a, b, keep);
    reveal(Seq::filter);
    Seq::<Probe>::empty().lemma_filter_push(p, keep);
    assert(Seq::<Probe>::empty().push(p) =~= seq![p]);
}

/// Evicting twice at one instant is the same as evicting once, and evicting
/// at a later instant makes an earlier eviction redundant.
pub proof fn lemma_evicted_again(s: Seq<Probe>, earlier: int, later: int)
    requires
        earlier <= later,
    ensures
        evicted(evicted(s, later), later) == evicted(s, later),
        evicted(evicted(s, earlier), later) == evicted(s, later),
    decreases s.len(),
{
    let keep_later = |q: Probe| !is_stale(q, later);
    let keep_earlier = |q: Probe| !is_stale(q, earlier);
    reveal(Seq::filter);
    if s.len() > 0 {
        let front = s.drop_last();
        lemma_evicted_again(front, earlier, later);
        if keep_later(s.last()) {
            evicted(front, later).lemma_filter_push(s.last(), keep_later);
        }
        if keep_earlier(s.last()) {
            evicted(front, earlier).lemma_filter_push(s.last(), keep_later);
        }
    }
}

/// A reply is on record after eviction exactly if it is on record, before
/// eviction, in a probe that is not stale.
pub proof fn lemma_has_reply_evicted(s: Seq<Probe>, agent: u64, now: int)
    ensures
        has_reply(evicted(s, now), agent) <==> exists|i: int|
            0 <= i < s.len() && s[i].agent == agent && s[i].resolved && !is_stale(s[i], now),
{
    let e = evicted(s, now);
    if has_reply(e, agent) {
        let j = choose|j: int| 0 <= j < e.len() && e[j].agent == agent && e[j].resolved;
        assert(e.contains(e[j]));
        lemma_evicted_contains(s, now, e[j]);
        let i = choose|i: int| 0 <= i < s.len() && s[i] == e[j];
        assert(s[i].agent == agent && s[i].resolved && !is_stale(s[i], now));
    }
    if exists|i: int|
        0 <= i < s.len() && s[i].agent == agent && s[i].resolved && !is_stale(s[i], now) {
        let i = choose|i: int|
            0 <= i < s.len() && s[i].agent == agent && s[i].resolved && !is_stale(s[i], now);
        assert(s.contains(s[i]));
        lemma_evicted_contains(s, now, s[i]);
        let j = choose|j: int| 0 <= j < e.len() && e[j] == s[i];
        assert(e[j].agent == agent && e[j].resolved);
    }
}

/// An answered probe never becomes unanswered. Recording a probe and marking
/// replies leave every probe in its place, with its bot and its time, and a
/// probe that was answered stays answered; eviction takes probes away and
/// alters none of those it leaves.
pub proof fn lemma_reply_never_retracted(s: Seq<Probe>, agent: u64, now: i64, i: int)
    requires
        0 <= i < s.len(),
    ensures
        registered(s, agent, now)[i] == s[i],
        marked(s, agent).len() == s.len(),
        marked(s, agent)[i].agent == s[i].agent,
        marked(s, agent)[i].sent_at == s[i].sent_at,
        s[i].resolved ==> marked(s, agent)[i].resolved,
        s[i].agent != agent ==> marked(s, agent)[i] == s[i],
        forall|j: int|
            0 <= j < evicted(s, now as int).len() ==> s.contains(
                #[trigger] evicted(s, now as int)[j],
            ),
        s[i].resolved && !is_stale(s[i], now as int) ==> has_reply(
            evicted(s, now as int),
            s[i].agent,
        ),
{
    let e = evicted(s, now as int);
    assert forall|j: int| 0 <= j < e.len() implies s.contains(#[trigger] e[j]) by {
        assert(e.contains(e[j]));
        lemma_evicted_contains(s, now as int, e[j]);
    }
    lemma_has_reply_evicted(s, s[i].agent, now as int);
}

/// Marking is idempotent, and marking one bot does not touch the replies on
/// record for another.
pub proof fn lemma_marked_again(s: Seq<Probe>, agent: u64, other: u64)
    ensures
        marked(marked(s, agent), agent) == marked(s, agent),
        other != agent ==> (has_reply(marked(s, agent), other) <==> has_reply(s, other)),
{
    assert(marked(marked(s, agent), agent) =~= marked(s, agent));
    if other != agent {
        let m = marked(s, agent);
        if has_reply(m, other) {
            let i = choose|i: int| 0 <= i < m.len() && m[i].agent == other && m[i].resolved;
            assert(s[i].agent == other && s[i].resolved);
        }
        if has_reply(s, other) {
            let i = choose|i: int| 0 <= i < s.len() && s[i].agent == other && s[i].resolved;
            assert(m[i].agent == other && m[i].resolved);
        }
    }
}

/// A reply that is marked before the list is read is seen by the reader
/// exactly if the bot has a probe on record that is not yet stale.
pub proof fn lemma_marked_then_checked(s: Seq<Probe>, agent: u64, now: int)
    ensures
        has_reply(evicted(marked(s, agent), now), agent) <==> exists|i: int|
            0 <= i < s.len() && s[i].agent == agent && !is_stale(s[i], now),
{
    let m = marked(s, agent);
    lemma_has_reply_evicted(m, agent, now);
    if exists|i: int| 0 <= i < s.len() && s[i].agent == agent && !is_stale(s[i], now) {
        let i = choose|i: int| 0 <= i < s.len() && s[i].agent == agent && !is_stale(s[i], now);
        assert(m[i].agent == agent && m[i].resolved && !is_stale(m[i], now));
    }
    if has_reply(evicted(m, now), agent) {
        let i = choose|i: int|
            0 <= i < m.len() && m[i].agent == agent && m[i].resolved && !is_stale(m[i], now);
        assert(s[i].agent == agent && !is_stale(s[i], now));
    }
}

/// A probe that is recorded, then answered, is seen as answered by every
/// reader that comes no more than the staleness threshold later.
pub proof fn lemma_answered_probe_is_seen(s: Seq<Probe>, agent: u64, sent: i64, now: int)
    requires
        now - sent <= crate::registry::STALE_AFTER_SECS,
    ensures
        has_reply(evicted(marked(registered(s, agent, sent), agent), now), agent),
{
    let r = registered(s, agent, sent);
    assert(r[s.len() as int].agent == agent && !is_stale(r[s.len() as int], now));
    lemma_marked_then_checked(r, agent, now);
}

/// A probe that is never answered is never seen as answered, and once it is
/// stale a read drops it: the list is then as if it had not been recorded.
pub proof fn lemma_unanswered_probe_expires(s: Seq<Probe>, agent: u64, sent: i64, now: int)
    ensures
        !has_reply(s, agent) ==> !has_reply(evicted(registered(s, agent, sent), now), agent),
        now - sent > crate::registry::STALE_AFTER_SECS ==> evicted(registered(s, agent, sent), now)
            == evicted(s, now),
{
    let fresh = Probe { agent, sent_at: sent, resolved: false };
    let r = registered(s, agent, sent);
    s.lemma_filter_push(fresh, |q: Probe| !is_stale(q, now));
    if !has_reply(s, agent) {
        lemma_has_reply_evicted(r, agent, now);
        if has_reply(evicted(r, now), agent) {
            let i = choose|i: int|
                0 <= i < r.len() && r[i].agent == agent && r[i].resolved && !is_stale(r[i], now);
            if i < s.len() {
                assert(s[i].agent == agent && s[i].resolved);
            }
        }
    }
}

} // verus!

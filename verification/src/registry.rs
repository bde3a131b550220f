//! The list of probes that are waiting for, or have received, a reply.

use vstd::prelude::*;
use crate::clock::unix_now;

pub mod lemmas;

verus! {

/// What a reader of the list sees of one probe.
pub struct Probe {
    /// The Telegram id of the bot that was probed.
    pub agent: u64,
    /// Unix time, in seconds, at which the probe was recorded.
    pub sent_at: i64,
    /// Whether a message from the bot has been seen since.
    pub resolved: bool,
}

/// One probe sent to a bot.
#[derive(Clone, Copy, Debug)]
pub struct PingedBot {
    telegram_id: u64,
    ping_in: i64,
    is_response: bool,
}

impl View for PingedBot {
    type V = Probe;

    closed spec fn view(&self) -> Probe {
        Probe { agent: self.telegram_id, sent_at: self.ping_in, resolved: self.is_response }
    }
}

/// The probe `p` once a reply has been seen: nothing but `resolved` changes.
pub open spec fn answered(p: Probe) -> Probe {
    Probe { resolved: true, ..p }
}

impl Default for PingedBot {
    /// An unanswered probe of the bot with id 0, recorded at the epoch.
    fn default() -> (bot: Self)
        ensures
            bot@ == (Probe { agent: 0, sent_at: 0, resolved: false }),
    {
        PingedBot { telegram_id: 0, ping_in: 0, is_response: false }
    }
}

impl PingedBot {
    /// A fresh, unanswered probe of `telegram_id` recorded at time `now`.
    pub fn new_at(telegram_id: u64, now: i64) -> (bot: Self)
        ensures
            bot@ == (Probe { agent: telegram_id, sent_at: now, resolved: false }),
    {
        PingedBot { telegram_id, ping_in: now, is_response: false }
    }

    /// A fresh, unanswered probe of `telegram_id`, stamped with the time the
    /// system clock shows.
    pub fn new(telegram_id: u64) -> (bot: Self)
        ensures
            bot@.agent == telegram_id,
            !bot@.resolved,
    {
        PingedBot::new_at(telegram_id, unix_now())
    }

    /// The Telegram id of the bot that was probed.
    pub fn telegram_id(&self) -> (id: u64)
        ensures
            id == self@.agent,
    {
        self.telegram_id
    }

    /// Unix time, in seconds, at which the probe was recorded.
    pub fn ping_in(&self) -> (at: i64)
        ensures
            at == self@.sent_at,
    {
        self.ping_in
    }

    /// Whether a message from the bot has been seen since the probe.
    pub fn is_response(&self) -> (seen: bool)
        ensures
            seen == self@.resolved,
    {
        self.is_response
    }

    /// The same probe, marked as answered.
    pub fn new_res(self) -> (bot: Self)
        ensures
            bot@ == answered(self@),
    {
        let mut bot = self;
        bot.is_response = true;
        bot
    }
}

/// Age, in seconds, beyond which a probe is dropped from the list.
pub const STALE_AFTER_SECS: i64 = 60;

/// A probe is stale at time `now` once it is more than [`STALE_AFTER_SECS`] old.
/// A probe that is exactly that old is still kept.
pub open spec fn is_stale(p: Probe, now: int) -> bool {
    now - p.sent_at > STALE_AFTER_SECS
}

/// The list `s` without the probes that are stale at time `now`; the others
/// keep their order.
pub open spec fn evicted(s: Seq<Probe>, now: int) -> Seq<Probe> {
    s.filter(|p: Probe| !is_stale(p, now))
}

/// The list `s` followed by a fresh probe of `agent` recorded at `now`.
pub open spec fn registered(s: Seq<Probe>, agent: u64, now: i64) -> Seq<Probe> {
    s.push(Probe { agent, sent_at: now, resolved: false })
}

/// The list `s` in which every probe of `agent` is answered and every other
/// probe is as it was.
pub open spec fn marked(s: Seq<Probe>, agent: u64) -> Seq<Probe> {
    s.map_values(
        |p: Probe|
            if p.agent == agent {
                answered(p)
            } else {
                p
            },
    )
}

/// Some probe of `agent` in `s` has been answered.
pub open spec fn has_reply(s: Seq<Probe>, agent: u64) -> bool {
    exists|i: int| 0 <= i < s.len() && s[i].agent == agent && s[i].resolved
}

/// The probes on record, in the order in which they were recorded. Several
/// probes of one bot may be on record at once.
///
/// Every operation that changes the list takes it by exclusive reference, so
/// no two operations ever overlap. A program that shares the list between
/// tasks keeps it behind a single lock and holds the lock for one call at a time.
#[derive(Debug)]
pub struct PingList {
    bots: Vec<PingedBot>,
}

impl View for PingList {
    type V = Seq<Probe>;

    closed spec fn view(&self) -> Seq<Probe> {
        self.bots@.map_values(|b: PingedBot| b@)
    }
}

impl Default for PingList {
    /// An empty list.
    fn default() -> (list: Self)
        ensures
            list@ == Seq::<Probe>::empty(),
    {
        PingList::new()
    }
}

impl PingList {
    /// An empty list.
    pub fn new() -> (list: Self)
        ensures
            list@ == Seq::<Probe>::empty(),
    {
        PingList { bots: Vec::new() }
    }

    /// The number of probes on record.
    pub fn len(&self) -> (n: usize)
        ensures
            n == self@.len(),
    {
        self.bots.len()
    }

    /// The probe at position `i`, counted from the oldest.
    pub fn get(&self, i: usize) -> (bot: Option<PingedBot>)
        ensures
            bot.is_some() == (i < self@.len()),
            bot matches Some(b) ==> b@ == self@[i as int],
    {
        if i < self.bots.len() {
            Some(self.bots[i])
        } else {
            None
        }
    }

    /// Drops every probe that is stale by the system clock.
    pub fn clear_outdead(&mut self)
        ensures
            exists|now: i64| final(self)@ == #[trigger] evicted(old(self)@, now as int),
    {
        let now = unix_now();
        self.clear_outdead_at(now);
    }

    /// Records a fresh, unanswered probe of `telegram_id`, stamped with the
    /// time the system clock shows.
    pub fn add_new(&mut self, telegram_id: u64)
        ensures
            exists|now: i64| final(self)@ == #[trigger] registered(old(self)@, telegram_id, now),
    {
        let now = unix_now();
        self.add_new_at(telegram_id, now);
    }

    /// Drops the probes that are stale by the system clock, then tells whether
    /// any probe of `telegram_id` that is left has been answered.
    pub fn check(&mut self, telegram_id: u64) -> (alive: bool)
        ensures
            exists|now: i64| final(self)@ == #[trigger] evicted(old(self)@, now as int),
            alive == has_reply(final(self)@, telegram_id),
    {
        let now = unix_now();
        self.check_at(telegram_id, now)
    }

    /// Drops every probe that is stale at time `now`.
    pub fn clear_outdead_at(&mut self, now: i64)
        ensures
            final(self)@ == evicted(old(self)@, now as int),
    {
        let ghost keep = |p: Probe| !is_stale(p, now as int);
        let ghost before = self@;
        let mut kept: Vec<PingedBot> = Vec::new();
        let n = self.bots.len();
        let mut i: usize = 0;
        while i < n
            invariant
                i <= n,
                n == self.bots@.len(),
                self@ == before,
                keep == |p: Probe| !is_stale(p, now as int),
                kept@.map_values(|b: PingedBot| b@) == before.take(i as int).filter(keep),
            decreases n - i,
        {
            let bot = self.bots[i];
            proof {
                let seen = before.take(i as int);
                seen.lemma_filter_push(bot@, keep);
                assert(before.take(i + 1) == seen.push(bot@));
                kept@.lemma_push_map_commute(|b: PingedBot| b@, bot);
            }
            if now as i128 - bot.ping_in as i128 <= STALE_AFTER_SECS as i128 {
                kept.push(bot);
            }
            i += 1;
        }
        proof {
            assert(before.take(n as int) == before);
        }
        self.bots = kept;
    }

    /// Records a fresh, unanswered probe of `telegram_id` sent at time `now`.
    /// Probes of the same bot already on record stay as they are.
    pub fn add_new_at(&mut self, telegram_id: u64, now: i64)
        ensures
            final(self)@ == registered(old(self)@, telegram_id, now),
    {
        let bot = PingedBot::new_at(telegram_id, now);
        proof {
            self.bots@.lemma_push_map_commute(|b: PingedBot| b@, bot);
        }
        self.bots.push(bot);
    }

    /// Drops the probes that are stale at time `now`, then tells whether any
    /// probe of `telegram_id` that is left has been answered.
    pub fn check_at(&mut self, telegram_id: u64, now: i64) -> (alive: bool)
        ensures
            final(self)@ == evicted(old(self)@, now as int),
            alive == has_reply(final(self)@, telegram_id),
    {
        self.clear_outdead_at(now);
        self.any_response(telegram_id)
    }

    /// Whether some probe of `telegram_id` on record has been answered.
    /// Nothing is dropped.
    pub fn any_response(&self, telegram_id: u64) -> (found: bool)
        ensures
            found == has_reply(self@, telegram_id),
    {
        let n = self.bots.len();
        let mut i: usize = 0;
        while i < n
            invariant
                i <= n,
                n == self.bots@.len(),
                forall|j: int| 0 <= j < i ==> !(self@[j].agent == telegram_id && self@[j].resolved),
            decreases n - i,
        {
            let bot = self.bots[i];
            if bot.telegram_id == telegram_id && bot.is_response {
                assert(self@[i as int].agent == telegram_id && self@[i as int].resolved);
                return true;
            }
            i += 1;
        }
        false
    }

    /// Marks every probe of `telegram_id` as answered. A list without such a
    /// probe is left as it is.
    pub fn new_res(&mut self, telegram_id: u64)
        ensures
            final(self)@ == marked(old(self)@, telegram_id),
    {
        let ghost before = self@;
        let n = self.bots.len();
        let mut i: usize = 0;
        while i < n
            invariant
                i <= n,
                n == self.bots@.len(),
                self@.len() == before.len(),
                forall|j: int| 0 <= j < i ==> self@[j] == marked(before, telegram_id)[j],
                forall|j: int| i <= j < n ==> self@[j] == before[j],
            decreases n - i,
        {
            let bot = self.bots[i];
            if bot.telegram_id == telegram_id {
                self.bots.set(i, bot.new_res());
            }
            i += 1;
        }
        assert(self@ =~= marked(before, telegram_id));
    }
}

} // verus!

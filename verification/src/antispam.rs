//! Per-user flood control for AI requests.
//!
//! A user may have one request in flight at a time, must wait
//! [`MIN_INTERVAL_NS`] after a completed request before the next, and is
//! reported as spamming when [`SPAM_BURST_COUNT`] messages fall within
//! [`SPAM_WINDOW_NS`].
//!
//! Times are readings of a monotonic clock in nanoseconds; the caller
//! supplies them (the process-wide table and the clock live outside the
//! library).
use std::collections::HashMap;
use vstd::prelude::*;

verus! {

broadcast use vstd::std_specs::hash::group_hash_axioms;

/// Minimum pause between a completed request and the next one: 5 s.
pub const MIN_INTERVAL_NS: u64 = 5_000_000_000;

/// This many messages inside [`SPAM_WINDOW_NS`] count as a burst.
pub const SPAM_BURST_COUNT: usize = 3;

/// The burst window: 2 s.
pub const SPAM_WINDOW_NS: u64 = 2_000_000_000;

/// How long a spammer is muted, in seconds.
pub const MUTE_DURATION_SECS: i64 = 600;

/// The verdict on an incoming message.
#[derive(Debug, Clone, Copy, PartialEq, Eq, Structural)]
pub enum CheckResult {
    Allowed,
    StillProcessing,
    TooSoon,
    SpamDetected,
}

/// What the table holds for one user.
pub struct UserState {
    pub request_in_progress: bool,
    pub last_completed_at: Option<u64>,
    pub recent_messages: Vec<u64>,
}

/// The mathematical content of a [`UserState`].
pub struct UserModel {
    pub in_progress: bool,
    pub last_completed: Option<u64>,
    pub recent: Seq<u64>,
}

impl UserState {
    pub open spec fn model(&self) -> UserModel {
        UserModel {
            in_progress: self.request_in_progress,
            last_completed: self.last_completed_at,
            recent: self.recent_messages@,
        }
    }

    /// A user never seen before: nothing in flight, nothing completed, no
    /// recent messages.
    pub fn new() -> (r: UserState)
        ensures
            r.model() == fresh_user(),
    {
        UserState { request_in_progress: false, last_completed_at: None, recent_messages: Vec::new() }
    }
}

/// The state of a user the table does not hold.
pub open spec fn fresh_user() -> UserModel {
    UserModel { in_progress: false, last_completed: None, recent: Seq::empty() }
}

/// `Instant::duration_since`: the time from `then` to `now`, zero when
/// `then` is later.
pub open spec fn elapsed(now: u64, then: u64) -> nat {
    if now >= then {
        (now - then) as nat
    } else {
        0
    }
}

/// Whether a message seen at `t` still counts at `now`.
pub open spec fn in_window(now: u64, t: u64) -> bool {
    elapsed(now, t) <= SPAM_WINDOW_NS
}

/// The recent messages after one more arrives at `now`: the new one is
/// added and those older than the window are dropped.
pub open spec fn recent_after(recent: Seq<u64>, now: u64) -> Seq<u64> {
    recent.push(now).filter(|t: u64| in_window(now, t))
}

/// The verdict for a message arriving at `now` from a user in state `st`.
pub open spec fn check_outcome(st: UserModel, now: u64) -> CheckResult {
    if recent_after(st.recent, now).len() >= SPAM_BURST_COUNT {
        CheckResult::SpamDetected
    } else if st.in_progress {
        CheckResult::StillProcessing
    } else if st.last_completed matches Some(l) && elapsed(now, l) < MIN_INTERVAL_NS {
        CheckResult::TooSoon
    } else {
        CheckResult::Allowed
    }
}

/// The user's state after that message: it is recorded, and an allowed
/// message starts a request.
pub open spec fn state_after_check(st: UserModel, now: u64) -> UserModel {
    UserModel {
        in_progress: st.in_progress || check_outcome(st, now) == CheckResult::Allowed,
        last_completed: st.last_completed,
        recent: recent_after(st.recent, now),
    }
}

/// The state the table holds for `u`, or a fresh one.
pub open spec fn user_or_fresh(m: Map<i64, UserModel>, u: i64) -> UserModel {
    if m.contains_key(u) {
        m[u]
    } else {
        fresh_user()
    }
}

/// The table after a message from `u` at `now`.
pub open spec fn table_after_check(m: Map<i64, UserModel>, u: i64, now: u64) -> Map<i64, UserModel> {
    m.insert(u, state_after_check(user_or_fresh(m, u), now))
}

/// The table after `u`'s request completes at `now` (unchanged for an
/// unknown user).
pub open spec fn table_after_completion(m: Map<i64, UserModel>, u: i64, now: u64) -> Map<
    i64,
    UserModel,
> {
    if m.contains_key(u) {
        m.insert(u, UserModel { in_progress: false, last_completed: Some(now), recent: m[u].recent })
    } else {
        m
    }
}

/// The per-user table.
pub struct AntiSpam {
    users: HashMap<i64, UserState>,
}

impl View for AntiSpam {
    type V = Map<i64, UserModel>;

    closed spec fn view(&self) -> Map<i64, UserModel> {
        self.users@.map_values(|s: UserState| s.model())
    }
}

fn filter_recent(recent: &Vec<u64>, now: u64) -> (r: Vec<u64>)
    ensures
        r@ == recent@.push(now).filter(|t: u64| in_window(now, t)),
{
    let ghost pred = |t: u64| in_window(now, t);
    let mut all: Vec<u64> = recent.clone();
    all.push(now);
    let ghost s = recent@.push(now);
    assert(all@ == s) by {
        assert(all@ =~= s);
    }
    let mut out: Vec<u64> = Vec::new();
    let mut i: usize = 0;
    assert(s.take(0) =~= Seq::<u64>::empty());
    while i < all.len()
        invariant
            i <= all@.len(),
            all@ == s,
            pred == (|t: u64| in_window(now, t)),
            out@ == s.take(i as int).filter(pred),
        decreases all.len() - i,
    {
        let t = all[i];
        reveal_with_fuel(Seq::<_>::filter, 1);
        assert(s.take(i + 1).drop_last() =~= s.take(i as int));
        let keep = if now >= t {
            now - t <= SPAM_WINDOW_NS
        } else {
            true
        };
        if keep {
            out.push(t);
        }
        i = i + 1;
    }
    assert(s.take(all@.len() as int) =~= s);
    out
}

impl AntiSpam {
    /// An empty table.
    pub fn new() -> (r: AntiSpam)
        ensures
            r@ == Map::<i64, UserModel>::empty(),
    {
        let r = AntiSpam { users: HashMap::new() };
        assert(r@ =~= Map::<i64, UserModel>::empty());
        r
    }

    /// Records a message from `user_id` arriving at `now` and returns the
    /// verdict, checked in this order: a burst, an unfinished request, a
    /// request completed less than 5 s ago; otherwise the message is
    /// allowed and starts a request.
    pub fn check_and_register(&mut self, user_id: i64, now: u64) -> (r: CheckResult)
        ensures
            r == check_outcome(user_or_fresh(old(self)@, user_id), now),
            final(self)@ == table_after_check(old(self)@, user_id, now),
    {
        let ghost old_users = self.users@;
        let st = match self.users.remove(&user_id) {
            Some(s) => s,
            None => UserState::new(),
        };
        assert(st.model() == user_or_fresh(old(self)@, user_id));
        let recent = filter_recent(&st.recent_messages, now);
        let result = if recent.len() >= SPAM_BURST_COUNT {
            CheckResult::SpamDetected
        } else if st.request_in_progress {
            CheckResult::StillProcessing
        } else if match st.last_completed_at {
            Some(l) => now < l || now - l < MIN_INTERVAL_NS,
            None => false,
        } {
            CheckResult::TooSoon
        } else {
            CheckResult::Allowed
        };
        let new_state = UserState {
            request_in_progress: st.request_in_progress || result == CheckResult::Allowed,
            last_completed_at: st.last_completed_at,
            recent_messages: recent,
        };
        let ghost removed = self.users@;
        self.users.insert(user_id, new_state);
        assert(self@ =~= table_after_check(old(self)@, user_id, now)) by {
            assert(removed == old_users.remove(user_id));
        }
        result
    }

    /// Marks `user_id`'s request as finished at `now`; nothing happens for a
    /// user the table does not hold.
    pub fn mark_completed(&mut self, user_id: i64, now: u64)
        ensures
            final(self)@ == table_after_completion(old(self)@, user_id, now),
    {
        match self.users.remove(&user_id) {
            Some(st) => {
                let ghost removed = self.users@;
                self.users.insert(
                    user_id,
                    UserState {
                        request_in_progress: false,
                        last_completed_at: Some(now),
                        recent_messages: st.recent_messages,
                    },
                );
                assert(self@ =~= table_after_completion(old(self)@, user_id, now));
            },
            None => {
                assert(self@ =~= old(self)@);
            },
        }
    }

    /// Forgets everything about `user_id`.
    pub fn clear_user(&mut self, user_id: i64)
        ensures
            final(self)@ == old(self)@.remove(user_id),
    {
        self.users.remove(&user_id);
        assert(self@ =~= old(self)@.remove(user_id));
    }
}


// ---------------------------------------------------------------------
// Laws
// ---------------------------------------------------------------------

/// A message that arrives while the user's earlier request is still in
/// flight is never allowed: once a check says `Allowed`, the next check for
/// that user (before completion) says `StillProcessing` or `SpamDetected`.
pub proof fn law_one_request_in_flight(m: Map<i64, UserModel>, u: i64, t1: u64, t2: u64)
    requires
        check_outcome(user_or_fresh(m, u), t1) == CheckResult::Allowed,
    ensures
        ({
            let r = check_outcome(user_or_fresh(table_after_check(m, u, t1), u), t2);
            r == CheckResult::StillProcessing || r == CheckResult::SpamDetected
        }),
{
    assert(table_after_check(m, u, t1).contains_key(u));
}

/// Within 5 s after a request completes, the user's next message is not
/// allowed: it is `TooSoon` (or `SpamDetected`).
pub proof fn law_pause_after_completion(m: Map<i64, UserModel>, u: i64, t1: u64, t2: u64)
    requires
        m.contains_key(u),
        elapsed(t2, t1) < MIN_INTERVAL_NS,
    ensures
        ({
            let r = check_outcome(user_or_fresh(table_after_completion(m, u, t1), u), t2);
            r == CheckResult::TooSoon || r == CheckResult::SpamDetected
        }),
{
}

proof fn lemma_recent_after_ends_with(r: Seq<u64>, now: u64)
    ensures
        recent_after(r, now) == r.filter(|t: u64| in_window(now, t)).push(now),
{
    reveal_with_fuel(Seq::<_>::filter, 1);
    let s = r.push(now);
    assert(s.drop_last() =~= r);
    assert(in_window(now, now));
}

/// Three messages from one user within the 2 s window: the third is
/// reported as spam, whatever the user's state before.
pub proof fn law_burst_is_spam(m: Map<i64, UserModel>, u: i64, t1: u64, t2: u64, t3: u64)
    requires
        t1 <= t2 <= t3,
        t3 - t1 <= SPAM_WINDOW_NS,
    ensures
        ({
            let m1 = table_after_check(m, u, t1);
            let m2 = table_after_check(m1, u, t2);
            check_outcome(user_or_fresh(m2, u), t3) == CheckResult::SpamDetected
        }),
{
    let m1 = table_after_check(m, u, t1);
    let m2 = table_after_check(m1, u, t2);
    let r0 = user_or_fresh(m, u).recent;
    let p2 = |t: u64| in_window(t2, t);
    let p3 = |t: u64| in_window(t3, t);
    assert(m1.contains_key(u));
    assert(m2.contains_key(u));
    let r1 = recent_after(r0, t1);
    lemma_recent_after_ends_with(r0, t1);
    let f1 = r0.filter(|t: u64| in_window(t1, t));
    assert(r1 == f1.push(t1));
    let r2 = recent_after(r1, t2);
    lemma_recent_after_ends_with(r1, t2);
    assert(r2 == r1.filter(p2).push(t2));
    assert(r1.filter(p2) == f1.filter(p2).push(t1)) by {
        reveal_with_fuel(Seq::<_>::filter, 1);
        assert(r1.drop_last() =~= f1);
        assert(p2(t1));
    }
    let r3 = recent_after(r2, t3);
    lemma_recent_after_ends_with(r2, t3);
    assert(r3 == r2.filter(p3).push(t3));
    assert(r2.filter(p3) == r1.filter(p2).filter(p3).push(t2)) by {
        reveal_with_fuel(Seq::<_>::filter, 1);
        assert(r2.drop_last() =~= r1.filter(p2));
        assert(p3(t2));
    }
    assert(r1.filter(p2).filter(p3) == f1.filter(p2).filter(p3).push(t1)) by {
        reveal_with_fuel(Seq::<_>::filter, 1);
        assert(r1.filter(p2).drop_last() =~= f1.filter(p2));
        assert(p3(t1));
    }
    assert(user_or_fresh(m2, u).recent == r2);
    assert(r3.len() >= 3);
}

/// After a user is cleared, their next message is allowed.
pub proof fn law_cleared_user_is_allowed(m: Map<i64, UserModel>, u: i64, now: u64)
    ensures
        check_outcome(user_or_fresh(m.remove(u), u), now) == CheckResult::Allowed,
{
    let r = recent_after(Seq::<u64>::empty(), now);
    lemma_recent_after_ends_with(Seq::<u64>::empty(), now);
    assert(Seq::<u64>::empty().filter(|t: u64| in_window(now, t)) =~= Seq::<u64>::empty()) by {
        reveal_with_fuel(Seq::<_>::filter, 1);
    }
    assert(r.len() == 1);
}

/// A message that is not allowed never starts a request, and a check never
/// changes when the last request completed.
pub proof fn law_only_allowed_starts_request(m: Map<i64, UserModel>, u: i64, now: u64)
    ensures
        ({
            let before = user_or_fresh(m, u);
            let after = table_after_check(m, u, now)[u];
            &&& after.last_completed == before.last_completed
            &&& check_outcome(before, now) != CheckResult::Allowed ==> after.in_progress
                == before.in_progress
        }),
{
}

} // verus!

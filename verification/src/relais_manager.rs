//! Relay scheduling engine: the sole owner of per-relay commanded state.
//! A command sets a relay's state and may schedule an automatic revert to
//! off after a duration; a new command always replaces a pending schedule.
//! The engine is driven from one task only — applying commands as they
//! arrive and polling for expired schedules — and itself never touches an
//! output: it reports which outputs must change and leaves the physical
//! write to the output driver.

use vstd::prelude::*;
use crate::relais_message::RelaisState;

verus! {

/// Idle wake interval in milliseconds, returned as the next timeout when no
/// relay has a pending schedule, so the driving loop still wakes
/// periodically instead of blocking forever.
pub const IDLE_TIMEOUT_MS: u64 = 100;

/// One relay's record: the commanded state and, when a duration was given,
/// the pending `(deadline, revert state)` pair.
#[derive(Debug, Clone, Copy, PartialEq, Eq)]
pub struct ActiveRelais {
    /// State last commanded for this relay.
    pub current: RelaisState,
    /// Pending automatic revert: deadline in milliseconds and the state to
    /// emit when it passes.
    pub scheduled: Option<(u64, RelaisState)>,
}

/// The deadline a command schedules: `now + duration`, saturating at the
/// top of the clock so that no input can make the engine fail.
pub open spec fn spec_deadline(now_ms: u64, duration_ms: u64) -> u64 {
    if now_ms + duration_ms > u64::MAX {
        u64::MAX
    } else {
        (now_ms + duration_ms) as u64
    }
}

/// The record a command leaves behind: the commanded state, with a revert
/// to off scheduled when the duration is nonzero and any earlier schedule
/// gone either way.
pub open spec fn spec_apply(state: RelaisState, duration_ms: u64, now_ms: u64) -> ActiveRelais {
    ActiveRelais {
        current: state,
        scheduled: if duration_ms != 0 {
            Some((spec_deadline(now_ms, duration_ms), RelaisState::Off))
        } else {
            None
        },
    }
}

/// Whether a record's schedule has passed at `now`.
pub open spec fn spec_expired(r: ActiveRelais, now_ms: u64) -> bool {
    r.scheduled matches Some((when, _)) && now_ms >= when
}

/// The table after a poll: every expired schedule cleared, commanded states
/// and everything else untouched.
pub open spec fn spec_clear_expired(t: Seq<Option<ActiveRelais>>, now_ms: u64) -> Seq<
    Option<ActiveRelais>,
> {
    Seq::new(
        t.len(),
        |i: int|
            match t[i] {
                Some(r) => if spec_expired(r, now_ms) {
                    Some(ActiveRelais { current: r.current, scheduled: None })
                } else {
                    Some(r)
                },
                None => None,
            },
    )
}

/// The `(relay index, revert state)` pairs a poll emits: one per expired
/// schedule, in relay-index order.
pub open spec fn spec_expired_list(t: Seq<Option<ActiveRelais>>, now_ms: u64) -> Seq<
    (usize, RelaisState),
>
    decreases t.len(),
{
    if t.len() == 0 {
        Seq::empty()
    } else {
        spec_expired_list(t.drop_last(), now_ms) + (match t.last() {
            Some(r) => if spec_expired(r, now_ms) {
                seq![(((t.len() - 1) as usize), r.scheduled.unwrap().1)]
            } else {
                Seq::empty()
            },
            None => Seq::empty(),
        })
    }
}

impl ActiveRelais {
    /// Applies a command to this record: the new state is taken over, a
    /// nonzero duration schedules a revert to off — replacing any pending
    /// schedule — and a zero duration clears the schedule.
    pub fn update(&mut self, now_ms: u64, new_state: RelaisState, duration_ms: u64)
        ensures
            *final(self) == spec_apply(new_state, duration_ms, now_ms),
    {
        self.current = new_state;
        if duration_ms != 0 {
            let deadline: u64 = if duration_ms > u64::MAX - now_ms {
                u64::MAX
            } else {
                now_ms + duration_ms
            };
            self.scheduled = Some((deadline, RelaisState::Off));
        } else {
            self.scheduled = None;
        }
    }

    /// Emits the revert state once when the schedule has passed, clearing
    /// it; a schedule fires at most once.
    pub fn poll(&mut self, now_ms: u64) -> (r: Option<RelaisState>)
        ensures
            spec_expired(*old(self), now_ms) ==> {
                &&& r == Some(old(self).scheduled.unwrap().1)
                &&& *final(self) == (ActiveRelais { current: old(self).current, scheduled: None })
            },
            !spec_expired(*old(self), now_ms) ==> r is None && *final(self) == *old(self),
    {
        if let Some((when, action)) = self.scheduled {
            if now_ms >= when {
                self.scheduled = None;
                return Some(action);
            }
        }
        None
    }
}

/// The engine's table: a fixed-capacity arena indexed by relay id. A slot
/// is `None` until its relay receives a first command — an uncommanded
/// relay is assumed to sit in its physical default, off. Indices at or
/// beyond the capacity are rejected, never grown into.
pub struct RelayManager<const N: usize> {
    relays: Vec<Option<ActiveRelais>>,
}

impl<const N: usize> View for RelayManager<N> {
    type V = Seq<Option<ActiveRelais>>;

    closed spec fn view(&self) -> Seq<Option<ActiveRelais>> {
        self.relays@
    }
}

impl<const N: usize> RelayManager<N> {
    /// The table always holds exactly one slot per possible relay index.
    pub open spec fn wf(self) -> bool {
        self@.len() == N
    }

    /// An empty table: no relay commanded yet.
    pub fn new() -> (m: RelayManager<N>)
        ensures
            m.wf(),
            forall|i: int| 0 <= i < N ==> m@[i] is None,
    {
        let mut relays: Vec<Option<ActiveRelais>> = Vec::new();
        while relays.len() < N
            invariant
                relays@.len() <= N,
                forall|i: int| 0 <= i < relays@.len() ==> relays@[i] is None,
            decreases N - relays@.len(),
        {
            relays.push(None);
        }
        RelayManager { relays }
    }

    /// Applies one command: looks up or creates the relay's record, sets
    /// the commanded state, and replaces or clears the pending schedule
    /// according to the duration. Returns whether the physical output must
    /// be (re)written: the state differs from the previous one, a fresh
    /// schedule was installed (the revert timer must restart even on an
    /// unchanged state), or the relay had never been commanded. An index
    /// beyond the capacity changes nothing — a defensive bound, relay
    /// indices are known at build time.
    pub fn apply_command(
        &mut self,
        num: usize,
        state: RelaisState,
        duration_ms: u64,
        now_ms: u64,
    ) -> (changed: bool)
        requires
            old(self).wf(),
        ensures
            final(self).wf(),
            num < N ==> {
                &&& final(self)@ == old(self)@.update(
                    num as int,
                    Some(spec_apply(state, duration_ms, now_ms)),
                )
                &&& changed == (old(self)@[num as int] matches Some(prev) ==> (prev.current
                    != state || duration_ms != 0))
            },
            num >= N ==> final(self)@ == old(self)@ && !changed,
    {
        if num >= self.relays.len() {
            return false;
        }
        let changed: bool;
        match self.relays[num] {
            Some(mut relay) => {
                changed = relay.current != state || duration_ms != 0;
                relay.update(now_ms, state, duration_ms);
                self.relays.set(num, Some(relay));
            },
            None => {
                let mut relay = ActiveRelais { current: RelaisState::Off, scheduled: None };
                relay.update(now_ms, state, duration_ms);
                self.relays.set(num, Some(relay));
                changed = true;
            },
        }
        proof {
            assert(self@ =~= old(self)@.update(
                num as int,
                Some(spec_apply(state, duration_ms, now_ms)),
            ));
        }
        changed
    }

    /// Clears every schedule whose deadline has passed and reports each
    /// such relay with its revert state, exactly once and in index order.
    /// Commanded states stay as they are; reverting the physical output is
    /// the caller's step.
    pub fn poll_expired(&mut self, now_ms: u64) -> (r: Vec<(usize, RelaisState)>)
        requires
            old(self).wf(),
        ensures
            final(self).wf(),
            final(self)@ == spec_clear_expired(old(self)@, now_ms),
            r@ == spec_expired_list(old(self)@, now_ms),
    {
        let ghost t0 = self@;
        let mut result: Vec<(usize, RelaisState)> = Vec::new();
        let mut num: usize = 0;
        while num < self.relays.len()
            invariant
                self@.len() == N,
                num <= N,
                t0.len() == N,
                forall|i: int| num <= i < N ==> self@[i] == t0[i],
                forall|i: int|
                    0 <= i < num ==> self@[i] == spec_clear_expired(t0, now_ms)[i],
                result@ == spec_expired_list(t0.take(num as int), now_ms),
            decreases N - num,
        {
            proof {
                assert(t0.take(num as int + 1).drop_last() =~= t0.take(num as int));
                assert(t0.take(num as int + 1).last() == t0[num as int]);
            }
            match self.relays[num] {
                Some(mut relay) => {
                    if let Some(state) = relay.poll(now_ms) {
                        self.relays.set(num, Some(relay));
                        result.push((num, state));
                    } else {
                        self.relays.set(num, Some(relay));
                    }
                },
                None => {},
            }
            num = num + 1;
        }
        proof {
            assert(t0.take(N as int) =~= t0);
            assert(self@ =~= spec_clear_expired(t0, now_ms));
        }
        result
    }

    /// The time to the earliest pending deadline, clamped at zero when it
    /// has already passed; the bounded idle interval when no relay has a
    /// schedule, so a driving loop never blocks forever.
    pub fn next_timeout(&self, now_ms: u64) -> (r: u64)
        requires
            self.wf(),
        ensures
            (exists|i: int| 0 <= i < N && spec_sched_deadline(self@, i) is Some) ==> {
                &&& exists|i: int|
                    0 <= i < N && ((#[trigger] spec_sched_deadline(self@, i)) matches Some(when)
                        && r == spec_until(when, now_ms))
                &&& forall|i: int|
                    0 <= i < N ==> ((#[trigger] spec_sched_deadline(self@, i)) matches Some(when)
                        ==> r <= spec_until(when, now_ms))
            },
            (forall|i: int| 0 <= i < N ==> (#[trigger] spec_sched_deadline(self@, i)) is None)
                ==> r == IDLE_TIMEOUT_MS,
    {
        let mut best: Option<u64> = None;
        let mut num: usize = 0;
        while num < self.relays.len()
            invariant
                self.wf(),
                num <= N,
                best matches Some(b) ==> exists|i: int|
                    0 <= i < num && ((#[trigger] spec_sched_deadline(self@, i)) matches Some(when)
                        && b == spec_until(when, now_ms)),
                best matches Some(b) ==> forall|i: int|
                    0 <= i < num ==> ((#[trigger] spec_sched_deadline(self@, i)) matches Some(when)
                        ==> b <= spec_until(when, now_ms)),
                best is None ==> forall|i: int|
                    0 <= i < num ==> (#[trigger] spec_sched_deadline(self@, i)) is None,
            decreases N - num,
        {
            if let Some(relay) = self.relays[num] {
                if let Some((when, _)) = relay.scheduled {
                    let until: u64 = if when > now_ms {
                        when - now_ms
                    } else {
                        0
                    };
                    assert(spec_sched_deadline(self@, num as int) == Some(when));
                    match best {
                        Some(b) => if until < b {
                            best = Some(until);
                        },
                        None => {
                            best = Some(until);
                        },
                    }
                }
            }
            num = num + 1;
        }
        match best {
            Some(b) => b,
            None => IDLE_TIMEOUT_MS,
        }
    }
}

/// The deadline a table slot holds, if any.
pub open spec fn spec_sched_deadline(t: Seq<Option<ActiveRelais>>, i: int) -> Option<u64> {
    match t[i] {
        Some(r) => match r.scheduled {
            Some((when, _)) => Some(when),
            None => None,
        },
        None => None,
    }
}

/// Milliseconds from `now` until a deadline, zero when it has passed.
pub open spec fn spec_until(when: u64, now_ms: u64) -> u64 {
    if when > now_ms {
        (when - now_ms) as u64
    } else {
        0
    }
}

/// Every pair a poll emits points at a slot whose schedule had expired, and
/// carries that schedule's revert state.
pub proof fn lemma_expired_list_members(t: Seq<Option<ActiveRelais>>, now_ms: u64, k: int)
    requires
        t.len() <= usize::MAX,
        0 <= k < spec_expired_list(t, now_ms).len(),
    ensures
        ({
            let p = spec_expired_list(t, now_ms)[k];
            &&& (p.0 as int) < t.len()
            &&& t[p.0 as int] matches Some(r)
            &&& spec_expired(t[p.0 as int].unwrap(), now_ms)
            &&& t[p.0 as int].unwrap().scheduled.unwrap().1 == p.1
        }),
    decreases t.len(),
{
    if t.len() > 0 {
        let sub = spec_expired_list(t.drop_last(), now_ms);
        if k < sub.len() {
            lemma_expired_list_members(t.drop_last(), now_ms, k);
            assert(spec_expired_list(t, now_ms)[k] == sub[k]);
            let p = sub[k];
            assert(t.drop_last()[p.0 as int] == t[p.0 as int]);
        } else {
            assert(spec_expired_list(t, now_ms)[k] == (
                ((t.len() - 1) as usize),
                t.last().unwrap().scheduled.unwrap().1,
            ));
        }
    }
}

/// A poll emits each relay at most once: the emitted indices are strictly
/// increasing along the list.
pub proof fn lemma_expired_list_once(t: Seq<Option<ActiveRelais>>, now_ms: u64, k1: int, k2: int)
    requires
        t.len() <= usize::MAX,
        0 <= k1 < k2 < spec_expired_list(t, now_ms).len(),
    ensures
        spec_expired_list(t, now_ms)[k1].0 < spec_expired_list(t, now_ms)[k2].0,
    decreases t.len(),
{
    let sub = spec_expired_list(t.drop_last(), now_ms);
    if k2 < sub.len() {
        lemma_expired_list_once(t.drop_last(), now_ms, k1, k2);
        assert(spec_expired_list(t, now_ms)[k1] == sub[k1]);
        assert(spec_expired_list(t, now_ms)[k2] == sub[k2]);
    } else {
        lemma_expired_list_members(t.drop_last(), now_ms, k1);
        assert(spec_expired_list(t, now_ms)[k1] == sub[k1]);
        assert((sub[k1].0 as int) < t.drop_last().len());
        assert(spec_expired_list(t, now_ms)[k2] == (
            ((t.len() - 1) as usize),
            t.last().unwrap().scheduled.unwrap().1,
        ));
    }
}

/// A poll emits every relay whose schedule has expired: none is forgotten.
pub proof fn lemma_expired_listed(t: Seq<Option<ActiveRelais>>, now_ms: u64, num: int)
    requires
        t.len() <= usize::MAX,
        0 <= num < t.len(),
        t[num] matches Some(r) && spec_expired(r, now_ms),
    ensures
        exists|k: int|
            0 <= k < spec_expired_list(t, now_ms).len() && #[trigger] spec_expired_list(
                t,
                now_ms,
            )[k] == (num as usize, t[num].unwrap().scheduled.unwrap().1),
    decreases t.len(),
{
    let sub = spec_expired_list(t.drop_last(), now_ms);
    if num == t.len() - 1 {
        assert(spec_expired_list(t, now_ms)[sub.len() as int] == (
            num as usize,
            t[num].unwrap().scheduled.unwrap().1,
        ));
    } else {
        lemma_expired_listed(t.drop_last(), now_ms, num);
        let k = choose|k: int|
            0 <= k < sub.len() && #[trigger] sub[k] == (
                num as usize,
                t.drop_last()[num].unwrap().scheduled.unwrap().1,
            );
        assert(spec_expired_list(t, now_ms)[k] == sub[k]);
    }
}

/// A table without an expired schedule makes a poll emit nothing.
pub proof fn lemma_no_expired_list_empty(t: Seq<Option<ActiveRelais>>, now_ms: u64)
    requires
        forall|i: int|
            0 <= i < t.len() ==> (#[trigger] t[i] matches Some(r) ==> !spec_expired(r, now_ms)),
    ensures
        spec_expired_list(t, now_ms) == Seq::<(usize, RelaisState)>::empty(),
    decreases t.len(),
{
    if t.len() > 0 {
        assert(t.drop_last() =~= t.take(t.len() - 1));
        lemma_no_expired_list_empty(t.drop_last(), now_ms);
        assert(spec_expired_list(t, now_ms) =~= Seq::<(usize, RelaisState)>::empty());
    } else {
        assert(spec_expired_list(t, now_ms) =~= Seq::<(usize, RelaisState)>::empty());
    }
}

/// Expiry is idempotent: polling twice at the same timestamp emits every
/// expired relay in the first call and nothing at all in the second — an
/// expired schedule cannot fire twice.
pub proof fn lemma_expiry_idempotent(t: Seq<Option<ActiveRelais>>, now_ms: u64)
    ensures
        spec_expired_list(spec_clear_expired(t, now_ms), now_ms) == Seq::<
            (usize, RelaisState),
        >::empty(),
{
    let c = spec_clear_expired(t, now_ms);
    assert forall|i: int|
        0 <= i < c.len() implies (#[trigger] c[i] matches Some(r) ==> !spec_expired(
        r,
        now_ms,
    )) by {}
    lemma_no_expired_list_empty(c, now_ms);
}

/// A new command always restarts the revert timer: after a second command
/// with a nonzero duration, the relay's deadline is the second command's
/// time plus its duration — whatever the first command had scheduled.
pub proof fn lemma_restart_replaces_schedule(
    t: Seq<Option<ActiveRelais>>,
    num: int,
    state1: RelaisState,
    duration1_ms: u64,
    time1_ms: u64,
    state2: RelaisState,
    duration2_ms: u64,
    time2_ms: u64,
)
    requires
        0 <= num < t.len(),
        duration2_ms != 0,
        time2_ms + duration2_ms <= u64::MAX,
    ensures
        ({
            let after_first = t.update(num, Some(spec_apply(state1, duration1_ms, time1_ms)));
            let after_second = after_first.update(
                num,
                Some(spec_apply(state2, duration2_ms, time2_ms)),
            );
            after_second[num].unwrap().scheduled == Some(
                ((time2_ms + duration2_ms) as u64, RelaisState::Off),
            )
        }),
{
}

/// A command without a duration clears any pending schedule: after it, no
/// poll at any later time ever reports that relay again.
pub proof fn lemma_zero_duration_clears_schedule(
    t: Seq<Option<ActiveRelais>>,
    num: int,
    state: RelaisState,
    now_ms: u64,
    later_ms: u64,
)
    requires
        t.len() <= usize::MAX,
        0 <= num < t.len(),
    ensures
        ({
            let after = t.update(num, Some(spec_apply(state, 0, now_ms)));
            &&& after[num].unwrap().scheduled is None
            &&& forall|k: int|
                0 <= k < spec_expired_list(after, later_ms).len()
                    ==> (#[trigger] spec_expired_list(after, later_ms)[k]).0 != num
        }),
{
    let after = t.update(num, Some(spec_apply(state, 0, now_ms)));
    assert forall|k: int|
        0 <= k < spec_expired_list(after, later_ms).len() implies (#[trigger] spec_expired_list(
        after,
        later_ms,
    )[k]).0 != num by {
        lemma_expired_list_members(after, later_ms, k);
    }
}

} // verus!

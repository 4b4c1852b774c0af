use vstd::prelude::*;

verus! {

/// What the poll loop does next after evaluating one observation.
#[derive(PartialEq, Eq, Structural, Debug, Clone, Copy)]
pub enum PollAction {
    /// The predicate holds: stop successfully.
    Finish,
    /// Not there yet and budget left: sleep one interval, then fetch again.
    Wait,
    /// Not there yet and the attempt budget is spent: stop, exhausted.
    /// This is a normal terminal outcome, not an error.
    GiveUp,
}

/// Bounded-retry state: how many fetch-after-creation attempts of the
/// allowed budget were used so far.
#[derive(PartialEq, Eq, Structural, Debug, Clone, Copy)]
pub struct Poller {
    pub max_attempts: u32,
    pub used: u32,
}

impl Poller {
    /// The attempt counter never passes its budget.
    pub open spec fn wf(self) -> bool {
        self.used <= self.max_attempts
    }

    /// A fresh loop: nothing fetched yet beyond the initial value.
    pub fn new(max_attempts: u32) -> (p: Poller)
        ensures
            p.max_attempts == max_attempts,
            p.used == 0,
            p.wf(),
    {
        Poller { max_attempts, used: 0 }
    }

    /// Decides on one observation: finish on a satisfying value;
    /// otherwise spend one attempt and wait, or give up when none is
    /// left.  The very first observation is decided before any sleep, so
    /// a value that is already terminal costs neither sleep nor fetch.
    pub fn on_observation(&mut self, satisfied: bool) -> (a: PollAction)
        ensures
            spec_poll_step(*old(self), satisfied, *final(self), a),
            old(self).wf() ==> final(self).wf(),
    {
        if satisfied {
            PollAction::Finish
        } else if self.used >= self.max_attempts {
            PollAction::GiveUp
        } else {
            self.used = self.used + 1;
            PollAction::Wait
        }
    }

    /// Decides on one fetch outcome.  A failed fetch aborts the loop at
    /// once, handing the error back with no sleep and no attempt spent:
    /// a fetch failure is not "not yet terminal" and is never retried.
    /// A fetched value is evaluated like any other observation.
    pub fn on_fetch<E>(&mut self, outcome: Result<bool, E>) -> (r: Result<PollAction, E>)
        ensures
            (match outcome {
                Ok(satisfied) => r matches Ok(a) && spec_poll_step(
                    *old(self),
                    satisfied,
                    *final(self),
                    a,
                ),
                Err(e) => r == Err::<PollAction, E>(e) && *final(self) == *old(self),
            }),
            old(self).wf() ==> final(self).wf(),
    {
        match outcome {
            Ok(satisfied) => Ok(self.on_observation(satisfied)),
            Err(e) => Err(e),
        }
    }

    /// The 1-indexed attempt number, as reported to the user.
    pub fn attempt_number(&self) -> (r: u32)
        requires
            self.used < u32::MAX,
        ensures
            r == self.used + 1,
    {
        self.used + 1
    }
}

/// One decision step of the bounded loop: stop on a satisfying value,
/// give up when the budget is spent, otherwise spend one attempt.
pub open spec fn spec_poll_step(pre: Poller, satisfied: bool, post: Poller, a: PollAction) -> bool {
    if satisfied {
        a == PollAction::Finish && post == pre
    } else if pre.used >= pre.max_attempts {
        a == PollAction::GiveUp && post == pre
    } else {
        a == PollAction::Wait && post.used == pre.used + 1 && post.max_attempts == pre.max_attempts
    }
}

/// No observation strictly before `k` satisfies the predicate.
pub open spec fn spec_none_true_before(obs: Seq<bool>, k: int) -> bool {
    forall|j: int| 0 <= j < k ==> !obs[j]
}

/// Some observation within the budget satisfies the predicate, so the
/// loop reaches the desired state.
pub open spec fn spec_poll_reaches(obs: Seq<bool>, max: int) -> bool {
    exists|i: int| 0 <= i <= max && obs[i]
}

/// The loop with budget `max` stops at observation `i`: the first
/// satisfying one within the budget, or the last allowed one when none
/// satisfies.
pub open spec fn spec_poll_stops_at(obs: Seq<bool>, max: int, i: int) -> bool {
    if spec_poll_reaches(obs, max) {
        0 <= i <= max && obs[i] && spec_none_true_before(obs, i)
    } else {
        i == max
    }
}

/// The outcome of one bounded poll loop.
#[derive(PartialEq, Eq, Structural, Debug, Clone, Copy)]
pub struct PollOutcome {
    /// The predicate held at the stopping observation.
    pub reached: bool,
    /// Index of the stopping observation; index 0 is the initial value,
    /// index `k` the value of the `k`-th fetch-after-creation.
    pub stop_index: usize,
    /// Sleeps performed: one before each fetch, none after the stop.
    pub sleeps: u32,
}

/// Runs the bounded-retry loop over an already-given sequence of
/// predicate observations: `observations[0]` for the initial value, then
/// one entry per fetch.  Stops at the first satisfying observation, or
/// gives up once `max_attempts` fetches are spent.
pub fn run_poll(observations: &Vec<bool>, max_attempts: u32) -> (r: PollOutcome)
    requires
        observations@.len() > max_attempts,
    ensures
        r.reached == spec_poll_reaches(observations@, max_attempts as int),
        spec_poll_stops_at(observations@, max_attempts as int, r.stop_index as int),
        r.reached ==> observations@[r.stop_index as int],
        r.sleeps == r.stop_index,
        r.sleeps <= max_attempts,
{
    let mut poller = Poller::new(max_attempts);
    let mut i: usize = 0;
    loop
        invariant
            poller.max_attempts == max_attempts,
            poller.used == i,
            i <= max_attempts,
            observations@.len() > max_attempts,
            spec_none_true_before(observations@, i as int),
        decreases max_attempts - i,
    {
        let satisfied = observations[i];
        let action = poller.on_observation(satisfied);
        match action {
            PollAction::Finish => {
                return PollOutcome { reached: true, stop_index: i, sleeps: i as u32 };
            },
            PollAction::GiveUp => {
                return PollOutcome { reached: false, stop_index: i, sleeps: i as u32 };
            },
            PollAction::Wait => {
                i = i + 1;
            },
        }
    }
}

/// Law: with budget `max_attempts`, the loop performs at most
/// `max_attempts` fetch-after-creation attempts — one per sleep — before
/// giving up.
pub proof fn lemma_poll_budget(obs: Seq<bool>, max_attempts: u32, r: PollOutcome)
    requires
        obs.len() > max_attempts,
        spec_poll_stops_at(obs, max_attempts as int, r.stop_index as int),
        r.sleeps == r.stop_index,
    ensures
        r.sleeps <= max_attempts,
        r.stop_index <= max_attempts,
{
}

/// Law: when the initial value already satisfies the predicate, the loop
/// stops at that very observation: one evaluation, no sleep and no
/// further fetch.
pub proof fn lemma_poll_immediate(obs: Seq<bool>, max_attempts: u32, r: PollOutcome)
    requires
        obs.len() > max_attempts,
        obs[0],
        r.reached == spec_poll_reaches(obs, max_attempts as int),
        spec_poll_stops_at(obs, max_attempts as int, r.stop_index as int),
        r.sleeps == r.stop_index,
    ensures
        r.reached,
        r.stop_index == 0,
        r.sleeps == 0,
{
    assert(0 <= 0 <= max_attempts as int && obs[0]);
}

} // verus!

//! The supervisor of a room invitation: accepts it, and after each failure
//! waits longer before it tries again, until the wait would pass a cap.

use crate::text::same;
use vstd::prelude::*;

verus! {

/// How the waits grow.
#[derive(Clone, Copy, Debug, PartialEq, Eq, Structural)]
pub struct Backoff {
    /// The wait after the first failure.
    pub initial: u64,
    /// The factor by which the wait grows with each failure.
    pub multiplier: u64,
    /// The bound on the next wait: after a failure and its wait, another
    /// try is made only where the wait, grown by the multiplier, does not
    /// pass the cap.
    pub cap: u64,
}

/// Where the acceptance of an invitation stands.
#[derive(Clone, Copy, Debug, PartialEq, Eq, Structural)]
pub enum JoinState {
    /// The first try is under way.
    Pending,
    /// A later try is under way; should it fail, the wait is this long.
    Retrying(u64),
    /// The room was joined.
    Joined,
    /// The supervisor gave up for good.
    Abandoned,
}

/// What the supervisor does after a try.
#[derive(Clone, Copy, Debug, PartialEq, Eq, Structural)]
pub enum JoinAction {
    /// Nothing: the matter is closed.
    Rest,
    /// Wait this long, then try again.
    Retry { delay: u64 },
    /// Wait this long, then give up and log that the room was not joined.
    GiveUp { delay: u64 },
}

impl Backoff {
    /// The wait that a failure in `state` is followed by; `None` where no
    /// try is under way.
    pub open spec fn wait_of(self, state: JoinState) -> Option<u64> {
        match state {
            JoinState::Pending => Some(self.initial),
            JoinState::Retrying(delay) => Some(delay),
            _ => None,
        }
    }

    /// The state and the action after a try that was made in `state`.
    ///
    /// A try that worked closes the matter. After one that failed the
    /// supervisor waits, and the wait grows by the multiplier; once the
    /// grown wait passes the cap the supervisor gives up, else it tries
    /// again.
    pub open spec fn step(self, state: JoinState, accepted: bool) -> (JoinState, JoinAction) {
        match self.wait_of(state) {
            None => (state, JoinAction::Rest),
            Some(delay) => if accepted {
                (JoinState::Joined, JoinAction::Rest)
            } else if delay * self.multiplier > self.cap {
                (JoinState::Abandoned, JoinAction::GiveUp { delay })
            } else {
                (
                    JoinState::Retrying((delay * self.multiplier) as u64),
                    JoinAction::Retry { delay },
                )
            },
        }
    }

    /// The state after `failures` tries in a row that failed.
    pub open spec fn after_failures(self, state: JoinState, failures: nat) -> JoinState
        decreases failures,
    {
        if failures == 0 {
            state
        } else {
            self.after_failures(self.step(state, false).0, (failures - 1) as nat)
        }
    }

    /// The waits as the invitation handler has them: two time units at
    /// first, doubled each time, up to 3600.
    pub fn standard() -> (policy: Backoff)
        ensures
            policy == (Backoff { initial: 2, multiplier: 2, cap: 3600 }),
    {
        Backoff { initial: 2, multiplier: 2, cap: 3600 }
    }

    /// The state and the action after a try that was made in `state`.
    pub fn on_outcome(&self, state: JoinState, accepted: bool) -> (moved: (JoinState, JoinAction))
        ensures
            moved == self.step(state, accepted),
    {
        let delay = match state {
            JoinState::Pending => self.initial,
            JoinState::Retrying(delay) => delay,
            _ => {
                return (state, JoinAction::Rest);
            },
        };
        if accepted {
            return (JoinState::Joined, JoinAction::Rest);
        }
        match delay.checked_mul(self.multiplier) {
            Some(grown) => {
                if grown > self.cap {
                    (JoinState::Abandoned, JoinAction::GiveUp { delay })
                } else {
                    (JoinState::Retrying(grown), JoinAction::Retry { delay })
                }
            },
            None => (JoinState::Abandoned, JoinAction::GiveUp { delay }),
        }
    }
}

/// A closed matter stays closed.
pub proof fn lemma_closed_stays(policy: Backoff, state: JoinState, failures: nat)
    requires
        state == JoinState::Joined || state == JoinState::Abandoned,
    ensures
        policy.after_failures(state, failures) == state,
    decreases failures,
{
    if failures > 0 {
        lemma_closed_stays(policy, state, (failures - 1) as nat);
    }
}

/// The supervisor does not try forever: where the first wait is not zero
/// and every wait at least doubles, enough failures in a row end in
/// `Abandoned`. After a failure with the wait `delay`, more than
/// `cap - delay` failures are enough.
pub proof fn lemma_gives_up(policy: Backoff, state: JoinState, failures: nat)
    requires
        policy.multiplier >= 2,
        policy.wait_of(state) matches Some(delay) && delay >= 1 && delay + failures > policy.cap,
        failures >= 1,
    ensures
        policy.after_failures(state, failures) == JoinState::Abandoned,
    decreases failures,
{
    let delay = policy.wait_of(state)->0;
    let next = policy.step(state, false).0;
    assert(delay * policy.multiplier >= delay * 2) by (nonlinear_arith)
        requires
            policy.multiplier >= 2,
            delay >= 1,
    ;
    if delay * policy.multiplier > policy.cap {
        lemma_closed_stays(policy, JoinState::Abandoned, (failures - 1) as nat);
    } else {
        assert(failures >= 2);
        lemma_gives_up(policy, next, (failures - 1) as nat);
    }
}

/// The state that an invitation puts the supervisor in: `Pending` where
/// the invitation is for the bridge itself, which then tries to accept.
/// An invitation for another user, and a membership event that is no
/// invitation, start nothing.
pub fn on_stripped_state_member(invited: &str, own_user_id: &str, is_invitation: bool) -> (state:
    Option<JoinState>)
    ensures
        state == if invited@ == own_user_id@ && is_invitation {
            Some(JoinState::Pending)
        } else {
            None
        },
{
    if same(invited, own_user_id) && is_invitation {
        Some(JoinState::Pending)
    } else {
        None
    }
}

} // verus!

use netchat_bridge::supervisor::{on_stripped_state_member, Backoff, JoinAction, JoinState};

#[test]
fn invitation_for_the_bridge_starts_the_supervisor() {
    assert_eq!(
        on_stripped_state_member("@bot:example.org", "@bot:example.org", true),
        Some(JoinState::Pending)
    );
    assert_eq!(on_stripped_state_member("@other:example.org", "@bot:example.org", true), None);
    assert_eq!(on_stripped_state_member("@bot:example.org", "@bot:example.org", false), None);
}

#[test]
fn success_joins_at_once() {
    let policy = Backoff::standard();
    assert_eq!(policy.on_outcome(JoinState::Pending, true), (JoinState::Joined, JoinAction::Rest));
    assert_eq!(
        policy.on_outcome(JoinState::Retrying(64), true),
        (JoinState::Joined, JoinAction::Rest)
    );
}

#[test]
fn waits_double_up_to_the_cap() {
    let policy = Backoff::standard();
    assert_eq!(policy, Backoff { initial: 2, multiplier: 2, cap: 3600 });
    let mut state = JoinState::Pending;
    let mut waits: Vec<u64> = Vec::new();
    loop {
        let (next, action) = policy.on_outcome(state, false);
        match action {
            JoinAction::Retry { delay } => waits.push(delay),
            JoinAction::GiveUp { delay } => {
                waits.push(delay);
                assert_eq!(next, JoinState::Abandoned);
                break;
            }
            JoinAction::Rest => panic!("rest while a try is under way"),
        }
        state = next;
    }
    assert_eq!(waits, vec![2, 4, 8, 16, 32, 64, 128, 256, 512, 1024, 2048]);
}

#[test]
fn first_failure_waits_the_initial_delay() {
    let policy = Backoff { initial: 5, multiplier: 3, cap: 100 };
    assert_eq!(
        policy.on_outcome(JoinState::Pending, false),
        (JoinState::Retrying(15), JoinAction::Retry { delay: 5 })
    );
    assert_eq!(
        policy.on_outcome(JoinState::Retrying(15), false),
        (JoinState::Retrying(45), JoinAction::Retry { delay: 15 })
    );
    assert_eq!(
        policy.on_outcome(JoinState::Retrying(45), false),
        (JoinState::Abandoned, JoinAction::GiveUp { delay: 45 })
    );
}

#[test]
fn grown_wait_equal_to_the_cap_still_retries() {
    let policy = Backoff { initial: 10, multiplier: 2, cap: 20 };
    assert_eq!(
        policy.on_outcome(JoinState::Pending, false),
        (JoinState::Retrying(20), JoinAction::Retry { delay: 10 })
    );
    assert_eq!(
        policy.on_outcome(JoinState::Retrying(20), false),
        (JoinState::Abandoned, JoinAction::GiveUp { delay: 20 })
    );
}

#[test]
fn wait_that_overflows_gives_up() {
    let policy = Backoff { initial: u64::MAX, multiplier: 2, cap: u64::MAX };
    assert_eq!(
        policy.on_outcome(JoinState::Pending, false),
        (JoinState::Abandoned, JoinAction::GiveUp { delay: u64::MAX })
    );
}

#[test]
fn closed_matters_stay_closed() {
    let policy = Backoff::standard();
    for state in [JoinState::Joined, JoinState::Abandoned] {
        for accepted in [true, false] {
            assert_eq!(policy.on_outcome(state, accepted), (state, JoinAction::Rest));
        }
    }
}

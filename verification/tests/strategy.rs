use pass3d_bridge::strategy::{
    AltruisticStrategy, MixStrategy, RationalStrategy, RelayCandidate, RelayDecision, RelayStrategy,
};

fn candidate(cost: u128, reward: u128, backlog_age: u64) -> RelayCandidate {
    RelayCandidate { begin: 1, end: 1, cost, reward, backlog_age, proof_header_finalized: true }
}

#[test]
fn unprofitable_message_is_skipped_until_it_is_old() {
    // the estimated fee exceeds twice the reward
    let strategy = MixStrategy { max_backlog_age: 100 };
    assert_eq!(strategy.decide(&candidate(201, 100, 99)), RelayDecision::Skip);
    assert_eq!(strategy.decide(&candidate(201, 100, 101)), RelayDecision::RelayNow);
}

#[test]
fn mix_strategy_at_the_threshold() {
    let strategy = MixStrategy { max_backlog_age: 100 };
    assert_eq!(strategy.decide(&candidate(201, 100, 100)), RelayDecision::Skip);
    assert_eq!(strategy.decide(&candidate(100, 100, 0)), RelayDecision::RelayNow);
    assert_eq!(strategy.decide(&candidate(101, 100, 0)), RelayDecision::Skip);
    assert_eq!(strategy.decide(&candidate(0, 0, 0)), RelayDecision::RelayNow);
    let never_old = MixStrategy { max_backlog_age: u64::MAX };
    assert_eq!(never_old.decide(&candidate(1, 0, u64::MAX)), RelayDecision::Skip);
}

#[test]
fn every_strategy_waits_for_finality() {
    let mut waiting = candidate(1, 100, 1000);
    waiting.proof_header_finalized = false;
    assert_eq!(MixStrategy { max_backlog_age: 10 }.decide(&waiting), RelayDecision::Wait);
    assert_eq!(RationalStrategy.decide(&waiting), RelayDecision::Wait);
    assert_eq!(AltruisticStrategy.decide(&waiting), RelayDecision::Wait);
}

#[test]
fn rational_and_altruistic_strategies() {
    assert_eq!(RationalStrategy.decide(&candidate(5, 5, 0)), RelayDecision::RelayNow);
    assert_eq!(RationalStrategy.decide(&candidate(6, 5, u64::MAX)), RelayDecision::Skip);
    assert_eq!(AltruisticStrategy.decide(&candidate(u128::MAX, 0, 0)), RelayDecision::RelayNow);
}

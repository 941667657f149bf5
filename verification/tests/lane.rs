use pass3d_bridge::bp_pass3dt;
use pass3d_bridge::fixed::{FixedU128, FIXED_DIV};
use pass3d_bridge::lane::{
    InboundLaneData, LaneBounds, MessagesProof, OutboundLaneData, UnrewardedRelayer,
};
use pass3d_bridge::lane_sync::{
    estimate_delivery_cost, same_lane, BatchLimits, DeliveryPricing, DeliverySelection, LaneError,
    LaneStep, LaneSyncState, MessageDetails, StepInput,
};
use pass3d_bridge::strategy::{AltruisticStrategy, MixStrategy, RationalStrategy, RelayDecision};

const LANE: [u8; 4] = [0, 0, 0, 0];
const RELAYER: [u8; 32] = [1u8; 32];

fn bounds() -> LaneBounds {
    LaneBounds { max_unrewarded_relayer_entries: 4, max_unconfirmed_messages: 8 }
}

fn lane(generated: u64, confirmed: u64, received: u64, relayers: Vec<UnrewardedRelayer>) -> LaneSyncState {
    LaneSyncState::new(
        LANE,
        bounds(),
        &OutboundLaneData { latest_generated_nonce: generated, latest_received_nonce: confirmed },
        &InboundLaneData { latest_received_nonce: received, relayers },
    )
    .unwrap()
}

fn messages_proof(begin: u64, end: u64) -> MessagesProof {
    MessagesProof {
        bridged_header_hash: vec![7u8; 32],
        storage_proof: vec![vec![1, 2, 3]],
        lane: LANE,
        nonces_start: begin,
        nonces_end: end,
    }
}

fn details(count: usize) -> Vec<MessageDetails> {
    vec![MessageDetails { size: 100, dispatch_weight: 1_000, reward: 10 }; count]
}

fn wide_limits() -> BatchLimits {
    BatchLimits { max_messages: 100, max_size: 1 << 20, max_weight: 1 << 40 }
}

fn pricing() -> DeliveryPricing {
    DeliveryPricing {
        bridged: bp_pass3dt::constants(),
        storage_proof_overhead: 1024,
        base_extrinsic_weight: 1_000,
        fee_multiplier: FixedU128 { inner: FIXED_DIV },
        conversion_rate: FixedU128 { inner: FIXED_DIV },
        include_pay_dispatch_fee_cost: true,
    }
}

fn input(limits: BatchLimits, backlog_age: u64, provable_up_to: u64) -> StepInput {
    StepInput {
        limits,
        pricing: pricing(),
        backlog_age,
        provable_up_to,
        rate_estimate: None,
        rate_tolerance: FixedU128 { inner: FIXED_DIV / 10 },
    }
}

fn snapshot(state: &LaneSyncState) -> (u64, u64, u64, Vec<UnrewardedRelayer>) {
    (
        state.source_latest_generated(),
        state.source_latest_confirmed(),
        state.target_latest_received(),
        state.target_unrewarded_relayers().clone(),
    )
}

#[test]
fn max_range_cap_bounds_the_delivery() {
    // nonces 1..=5 generated, none delivered, at most 3 messages per delivery
    let state = lane(5, 0, 0, vec![]);
    let limits = BatchLimits { max_messages: 3, max_size: 1 << 20, max_weight: 1 << 40 };
    let selection = state.select_nonces_to_deliver(&details(5), &limits);
    assert_eq!(
        selection,
        DeliverySelection::Range { begin: 1, end: 3, size: 300, dispatch_weight: 3_000, reward: 30 }
    );
    let mut state = state;
    let step = state.sync_step(
        &OutboundLaneData { latest_generated_nonce: 5, latest_received_nonce: 0 },
        &InboundLaneData { latest_received_nonce: 0, relayers: vec![] },
        &details(5),
        &input(limits, 0, 5),
        &AltruisticStrategy,
    );
    assert_eq!(
        step,
        Ok(LaneStep {
            selection,
            decision: Some(RelayDecision::RelayNow),
            confirmation: None,
            rate_update: None
        })
    );
    // the submitted proof is accepted, and the next step takes the rest
    assert!(state.on_messages_delivered(&messages_proof(1, 3), RELAYER));
    assert_eq!(
        state.select_nonces_to_deliver(&details(2), &limits),
        DeliverySelection::Range { begin: 4, end: 5, size: 200, dispatch_weight: 2_000, reward: 20 }
    );
}

#[test]
fn selection_starts_after_the_latest_received_nonce() {
    let state = lane(10, 2, 4, vec![UnrewardedRelayer { relayer: RELAYER, begin: 3, end: 4 }]);
    let selection = state.select_nonces_to_deliver(&details(6), &wide_limits());
    // two of eight unconfirmed messages are taken: room for six
    assert_eq!(
        selection,
        DeliverySelection::Range { begin: 5, end: 10, size: 600, dispatch_weight: 6_000, reward: 60 }
    );
    assert_eq!(state.confirmation_to_submit(), Some(4));
}

#[test]
fn selection_is_bounded_by_size_and_weight() {
    let state = lane(5, 0, 0, vec![]);
    let by_size = BatchLimits { max_messages: 100, max_size: 250, max_weight: 1 << 40 };
    assert_eq!(
        state.select_nonces_to_deliver(&details(5), &by_size),
        DeliverySelection::Range { begin: 1, end: 2, size: 200, dispatch_weight: 2_000, reward: 20 }
    );
    let exactly = BatchLimits { max_messages: 100, max_size: 300, max_weight: 1 << 40 };
    assert_eq!(
        state.select_nonces_to_deliver(&details(5), &exactly),
        DeliverySelection::Range { begin: 1, end: 3, size: 300, dispatch_weight: 3_000, reward: 30 }
    );
    let by_weight = BatchLimits { max_messages: 100, max_size: 1 << 20, max_weight: 4_999 };
    assert_eq!(
        state.select_nonces_to_deliver(&details(5), &by_weight),
        DeliverySelection::Range { begin: 1, end: 4, size: 400, dispatch_weight: 4_000, reward: 40 }
    );
}

#[test]
fn selection_is_bounded_by_the_room_of_the_lane() {
    let state = lane(20, 0, 0, vec![]);
    assert_eq!(
        state.select_nonces_to_deliver(&details(20), &wide_limits()),
        DeliverySelection::Range { begin: 1, end: 8, size: 800, dispatch_weight: 8_000, reward: 80 }
    );
    // fewer details than messages wait: only those are taken
    assert_eq!(
        state.select_nonces_to_deliver(&details(2), &wide_limits()),
        DeliverySelection::Range { begin: 1, end: 2, size: 200, dispatch_weight: 2_000, reward: 20 }
    );
}

#[test]
fn nothing_is_selected_without_messages_or_room() {
    let empty = lane(4, 4, 4, vec![]);
    assert_eq!(
        empty.select_nonces_to_deliver(&details(3), &wide_limits()),
        DeliverySelection::Nothing
    );
    let no_details = lane(5, 0, 0, vec![]);
    assert_eq!(
        no_details.select_nonces_to_deliver(&vec![], &wide_limits()),
        DeliverySelection::Nothing
    );
    let no_cap = BatchLimits { max_messages: 0, max_size: 1 << 20, max_weight: 1 << 40 };
    assert_eq!(no_details.select_nonces_to_deliver(&details(5), &no_cap), DeliverySelection::Nothing);
    let full_window = lane(20, 0, 8, vec![UnrewardedRelayer { relayer: RELAYER, begin: 1, end: 8 }]);
    assert_eq!(
        full_window.select_nonces_to_deliver(&details(12), &wide_limits()),
        DeliverySelection::Nothing
    );
    let entries = vec![
        UnrewardedRelayer { relayer: RELAYER, begin: 1, end: 1 },
        UnrewardedRelayer { relayer: RELAYER, begin: 2, end: 2 },
        UnrewardedRelayer { relayer: RELAYER, begin: 3, end: 3 },
        UnrewardedRelayer { relayer: RELAYER, begin: 4, end: 4 },
    ];
    let full_entries = lane(20, 3, 4, entries);
    assert_eq!(
        full_entries.select_nonces_to_deliver(&details(16), &wide_limits()),
        DeliverySelection::Nothing
    );
}

#[test]
fn first_message_beyond_the_limits_is_reported() {
    let state = lane(5, 0, 2, vec![UnrewardedRelayer { relayer: RELAYER, begin: 1, end: 2 }]);
    let small = BatchLimits { max_messages: 100, max_size: 99, max_weight: 1 << 40 };
    assert_eq!(
        state.select_nonces_to_deliver(&details(3), &small),
        DeliverySelection::Oversized { nonce: 3 }
    );
    let light = BatchLimits { max_messages: 100, max_size: 1 << 20, max_weight: 999 };
    assert_eq!(
        state.select_nonces_to_deliver(&details(3), &light),
        DeliverySelection::Oversized { nonce: 3 }
    );
    let step = state.plan_step(&details(3), &input(light, 0, 5), &AltruisticStrategy);
    assert_eq!(step.decision, None);
    assert_eq!(step.confirmation, Some(2));
}

#[test]
fn rewards_saturate() {
    let state = lane(2, 0, 0, vec![]);
    let pending = vec![
        MessageDetails { size: 1, dispatch_weight: 1, reward: u128::MAX },
        MessageDetails { size: 1, dispatch_weight: 1, reward: 5 },
    ];
    assert_eq!(
        state.select_nonces_to_deliver(&pending, &wide_limits()),
        DeliverySelection::Range { begin: 1, end: 2, size: 2, dispatch_weight: 2, reward: u128::MAX }
    );
}

#[test]
fn deliveries_never_lower_the_received_nonce() {
    let mut state = lane(6, 0, 0, vec![]);
    let mut last = 0;
    for (begin, end) in [(1, 2), (1, 1), (3, 3), (2, 5), (9, 9), (6, 7), (6, 6), (1, 6)] {
        state.on_messages_delivered(&messages_proof(begin, end), RELAYER);
        assert!(state.target_latest_received() >= last);
        assert!(state.target_latest_received() <= state.source_latest_generated());
        assert!(state.source_latest_confirmed() <= state.target_latest_received());
        last = state.target_latest_received();
    }
    assert_eq!(last, 6);
}

#[test]
fn delivery_changes_the_lane_as_the_target_chain_does() {
    let mut state = lane(5, 0, 0, vec![]);
    assert!(state.on_messages_delivered(&messages_proof(1, 3), RELAYER));
    assert_eq!(
        snapshot(&state),
        (5, 0, 3, vec![UnrewardedRelayer { relayer: RELAYER, begin: 1, end: 3 }])
    );
    // a range that overlaps what was received delivers the rest
    assert!(state.on_messages_delivered(&messages_proof(2, 5), [2u8; 32]));
    assert_eq!(
        snapshot(&state),
        (
            5,
            0,
            5,
            vec![
                UnrewardedRelayer { relayer: RELAYER, begin: 1, end: 3 },
                UnrewardedRelayer { relayer: [2u8; 32], begin: 4, end: 5 }
            ]
        )
    );
}

#[test]
fn submitting_a_proof_twice_changes_nothing() {
    let mut state = lane(5, 0, 0, vec![]);
    assert!(state.on_messages_delivered(&messages_proof(1, 3), RELAYER));
    let after_first = snapshot(&state);
    assert!(!state.on_messages_delivered(&messages_proof(1, 3), RELAYER));
    assert_eq!(snapshot(&state), after_first);
    assert!(!state.on_messages_delivered(&messages_proof(1, 3), [9u8; 32]));
    assert_eq!(snapshot(&state), after_first);
}

#[test]
fn deliveries_that_the_target_chain_refuses_change_nothing() {
    let mut state = lane(5, 0, 1, vec![UnrewardedRelayer { relayer: RELAYER, begin: 1, end: 1 }]);
    let before = snapshot(&state);
    // a gap
    assert!(!state.on_messages_delivered(&messages_proof(3, 4), RELAYER));
    // messages that were not generated
    assert!(!state.on_messages_delivered(&messages_proof(2, 6), RELAYER));
    // an empty range
    assert!(!state.on_messages_delivered(&messages_proof(3, 2), RELAYER));
    // another lane
    let mut other = messages_proof(2, 3);
    other.lane = [0, 0, 0, 1];
    assert!(!state.on_messages_delivered(&other, RELAYER));
    assert_eq!(snapshot(&state), before);
    assert!(state.on_messages_delivered(&messages_proof(2, 3), RELAYER));

    // more unconfirmed messages than the lane may hold
    let mut long = lane(20, 0, 0, vec![]);
    assert!(!long.on_messages_delivered(&messages_proof(1, 9), RELAYER));
    assert!(long.on_messages_delivered(&messages_proof(1, 8), RELAYER));
    // more entries than the lane may hold
    let mut busy = lane(20, 0, 0, vec![]);
    for nonce in 1..=4 {
        assert!(busy.on_messages_delivered(&messages_proof(nonce, nonce), RELAYER));
    }
    assert!(!busy.on_messages_delivered(&messages_proof(5, 5), RELAYER));
    assert_eq!(busy.target_latest_received(), 4);
}

#[test]
fn confirmation_never_exceeds_what_was_received() {
    let mut state = lane(9, 1, 5, vec![UnrewardedRelayer { relayer: RELAYER, begin: 2, end: 5 }]);
    assert!(!state.on_delivery_confirmed(6));
    assert_eq!(state.source_latest_confirmed(), 1);
    assert!(!state.on_delivery_confirmed(1));
    assert!(!state.on_delivery_confirmed(0));
    assert!(state.on_delivery_confirmed(3));
    assert_eq!(state.source_latest_confirmed(), 3);
    assert!(!state.on_delivery_confirmed(2));
    assert_eq!(state.source_latest_confirmed(), 3);
    assert!(state.on_delivery_confirmed(5));
    assert_eq!(state.source_latest_confirmed(), 5);
    assert_eq!(state.confirmation_to_submit(), None);
    assert_eq!(state.target_latest_received(), 5);
}

#[test]
fn generated_nonce_never_falls() {
    let mut state = lane(5, 0, 0, vec![]);
    state.on_messages_generated(3);
    assert_eq!(state.source_latest_generated(), 5);
    state.on_messages_generated(9);
    assert_eq!(state.source_latest_generated(), 9);
    assert_eq!(state.lane(), LANE);
    assert_eq!(state.bounds(), bounds());
}

#[test]
fn impossible_lanes_are_refused() {
    let observe = |generated, confirmed, received, relayers| {
        LaneSyncState::new(
            LANE,
            bounds(),
            &OutboundLaneData { latest_generated_nonce: generated, latest_received_nonce: confirmed },
            &InboundLaneData { latest_received_nonce: received, relayers },
        )
        .err()
    };
    let entry = |begin, end| UnrewardedRelayer { relayer: RELAYER, begin, end };
    assert_eq!(observe(5, 0, 0, vec![]), None);
    assert_eq!(observe(5, 3, 2, vec![]), Some(LaneError::ConfirmedBeyondReceived));
    assert_eq!(observe(5, 3, 6, vec![]), Some(LaneError::ReceivedBeyondGenerated));
    assert_eq!(
        observe(9, 0, 5, vec![entry(1, 1), entry(2, 2), entry(3, 3), entry(4, 4), entry(5, 5)]),
        Some(LaneError::TooManyUnrewardedRelayers)
    );
    assert_eq!(observe(9, 0, 5, vec![entry(1, 2), entry(4, 5)]), Some(LaneError::NonceGap));
    assert_eq!(observe(9, 0, 5, vec![entry(1, 3), entry(3, 5)]), Some(LaneError::NonceGap));
    assert_eq!(observe(9, 0, 5, vec![entry(1, 4)]), Some(LaneError::NonceGap));
    assert_eq!(observe(9, 0, 5, vec![entry(0, 5)]), Some(LaneError::NonceGap));
    assert_eq!(observe(9, 0, 5, vec![entry(5, 4), entry(5, 5)]), Some(LaneError::NonceGap));
    assert_eq!(observe(9, 0, 5, vec![entry(1, 3), entry(4, 5)]), None);
    // the first fault is reported
    assert_eq!(observe(1, 3, 2, vec![entry(1, 1)]), Some(LaneError::ConfirmedBeyondReceived));
}

#[test]
fn step_asks_the_strategy_about_the_selected_range() {
    let state = lane(5, 0, 2, vec![UnrewardedRelayer { relayer: RELAYER, begin: 1, end: 2 }]);
    let pending = details(3);
    let cost = estimate_delivery_cost(&pricing(), 300, 3_000);
    // base 1000, one unit per byte of 300 + 1024 + 103, and the weight
    assert_eq!(cost, 1_000 + (300 + 1024 + 103) + (172 * 25_000 + 1_500_000_000 + 3_000));
    let step = state.plan_step(&pending, &input(wide_limits(), 0, 5), &RationalStrategy);
    assert_eq!(step.decision, Some(RelayDecision::Skip));
    assert_eq!(step.confirmation, Some(2));
    let mix = MixStrategy { max_backlog_age: 10 };
    let step = state.plan_step(&pending, &input(wide_limits(), 10, 5), &mix);
    assert_eq!(step.decision, Some(RelayDecision::Skip));
    let step = state.plan_step(&pending, &input(wide_limits(), 11, 5), &mix);
    assert_eq!(step.decision, Some(RelayDecision::RelayNow));
    // the target chain has finalized a header that holds four messages only
    let step = state.plan_step(&pending, &input(wide_limits(), 11, 4), &mix);
    assert_eq!(step.decision, Some(RelayDecision::Wait));
    let step = state.plan_step(&pending, &input(wide_limits(), 11, u64::MAX), &mix);
    assert_eq!(step.decision, Some(RelayDecision::RelayNow));

    let rich = vec![MessageDetails { size: 100, dispatch_weight: 1_000, reward: cost }; 3];
    let step = state.plan_step(&rich, &input(wide_limits(), 0, 5), &RationalStrategy);
    assert_eq!(step.decision, Some(RelayDecision::RelayNow));
}

#[test]
fn delivery_cost_is_converted_at_the_rate() {
    let mut pricing = pricing();
    let at_parity = estimate_delivery_cost(&pricing, 0, 0);
    assert_eq!(at_parity, 1_000 + 1024 + 103 + 1_500_000_000);
    pricing.conversion_rate = FixedU128 { inner: FIXED_DIV / 2 };
    assert_eq!(estimate_delivery_cost(&pricing, 0, 0), at_parity / 2);
    pricing.fee_multiplier = FixedU128 { inner: 2 * FIXED_DIV };
    assert_eq!(estimate_delivery_cost(&pricing, 0, 0), (1_000 + 1024 + 103 + 3_000_000_000) / 2);
    pricing.include_pay_dispatch_fee_cost = false;
    pricing.conversion_rate = FixedU128 { inner: 0 };
    assert_eq!(estimate_delivery_cost(&pricing, 0, 0), 0);
}

#[test]
fn lanes_are_compared_byte_by_byte() {
    assert!(same_lane(&[0, 0, 0, 1], &[0, 0, 0, 1]));
    assert!(!same_lane(&[0, 0, 0, 1], &[0, 0, 0, 0]));
    assert!(!same_lane(&[1, 0, 0, 0], &[0, 0, 0, 0]));
}

#[test]
fn refresh_takes_up_what_the_chains_report() {
    let mut state = lane(5, 0, 2, vec![UnrewardedRelayer { relayer: RELAYER, begin: 1, end: 2 }]);
    let entries = vec![
        UnrewardedRelayer { relayer: RELAYER, begin: 1, end: 2 },
        UnrewardedRelayer { relayer: RELAYER, begin: 3, end: 4 },
    ];
    let refreshed = state.refresh(
        &OutboundLaneData { latest_generated_nonce: 7, latest_received_nonce: 1 },
        &InboundLaneData { latest_received_nonce: 4, relayers: entries.clone() },
    );
    assert_eq!(refreshed, Ok(()));
    assert_eq!(snapshot(&state), (7, 1, 4, entries.clone()));

    let before = snapshot(&state);
    let regressions = [(6, 1, 4), (7, 0, 4)];
    for (generated, confirmed, received) in regressions {
        let refreshed = state.refresh(
            &OutboundLaneData { latest_generated_nonce: generated, latest_received_nonce: confirmed },
            &InboundLaneData { latest_received_nonce: received, relayers: entries.clone() },
        );
        assert_eq!(refreshed, Err(LaneError::NonceRegression));
        assert_eq!(snapshot(&state), before);
    }
    let refreshed = state.refresh(
        &OutboundLaneData { latest_generated_nonce: 7, latest_received_nonce: 1 },
        &InboundLaneData {
            latest_received_nonce: 2,
            relayers: vec![UnrewardedRelayer { relayer: RELAYER, begin: 1, end: 2 }],
        },
    );
    assert_eq!(refreshed, Err(LaneError::NonceRegression));
    let refreshed = state.refresh(
        &OutboundLaneData { latest_generated_nonce: 7, latest_received_nonce: 5 },
        &InboundLaneData { latest_received_nonce: 4, relayers: entries },
    );
    assert_eq!(refreshed, Err(LaneError::ConfirmedBeyondReceived));
    assert_eq!(snapshot(&state), before);
    assert_eq!(state.lane(), LANE);
}

#[test]
fn proofs_are_measured_in_bytes() {
    let mut proof = messages_proof(1, 2);
    assert_eq!(proof.size(), 32 + 3 + 4 + 16);
    proof.storage_proof = vec![vec![0u8; 10], vec![], vec![0u8; 5]];
    assert_eq!(proof.size(), 32 + 15 + 4 + 16);
    proof.storage_proof = vec![];
    proof.bridged_header_hash = vec![];
    assert_eq!(proof.size(), 20);
    assert_eq!(pass3d_bridge::lane::storage_proof_size(&vec![vec![1u8; 7], vec![2u8; 9]]), 16);
    assert_eq!(pass3d_bridge::lane::storage_proof_size(&vec![]), 0);
    let delivery = pass3d_bridge::lane::MessagesDeliveryProof {
        bridged_header_hash: vec![0u8; 64],
        storage_proof: vec![vec![0u8; 100]],
        lane: LANE,
    };
    assert_eq!(delivery.size(), 64 + 100 + 4);
}

#[test]
fn confirmation_rewards_every_message_once() {
    let entries = vec![
        UnrewardedRelayer { relayer: [1u8; 32], begin: 1, end: 3 },
        UnrewardedRelayer { relayer: [2u8; 32], begin: 4, end: 4 },
        UnrewardedRelayer { relayer: [1u8; 32], begin: 5, end: 8 },
    ];
    let state = lane(10, 2, 8, entries.clone());
    let rewards = state.rewards_due(6);
    let counts: Vec<([u8; 32], u64)> =
        rewards.iter().map(|reward| (reward.relayer, reward.messages)).collect();
    assert_eq!(counts, vec![([1u8; 32], 1), ([2u8; 32], 1), ([1u8; 32], 2)]);
    assert_eq!(counts.iter().map(|(_, messages)| messages).sum::<u64>(), 6 - 2);

    let all = pass3d_bridge::lane::rewards_for_confirmation(&entries, 0, 8);
    assert_eq!(all.iter().map(|reward| reward.messages).collect::<Vec<u64>>(), vec![3, 1, 4]);
    let none = pass3d_bridge::lane::rewards_for_confirmation(&entries, 8, 8);
    assert_eq!(none.iter().map(|reward| reward.messages).collect::<Vec<u64>>(), vec![0, 0, 0]);
    let backwards = pass3d_bridge::lane::rewards_for_confirmation(&entries, 5, 3);
    assert_eq!(backwards.iter().map(|reward| reward.messages).sum::<u64>(), 0);
    let edge = pass3d_bridge::lane::rewards_for_confirmation(
        &vec![UnrewardedRelayer { relayer: [1u8; 32], begin: 1, end: u64::MAX }],
        u64::MAX,
        u64::MAX,
    );
    assert_eq!(edge[0].messages, 0);
    let widest = pass3d_bridge::lane::rewards_for_confirmation(
        &vec![UnrewardedRelayer { relayer: [1u8; 32], begin: 1, end: u64::MAX }],
        0,
        u64::MAX,
    );
    assert_eq!(widest[0].messages, u64::MAX);
    assert!(pass3d_bridge::lane::rewards_for_confirmation(&vec![], 0, 9).is_empty());
}

#[test]
fn step_reads_the_chains_and_decides() {
    let mut state = lane(5, 0, 0, vec![]);
    let limits = BatchLimits { max_messages: 3, max_size: 1 << 20, max_weight: 1 << 40 };
    let entries = vec![UnrewardedRelayer { relayer: RELAYER, begin: 1, end: 2 }];
    let step = state.sync_step(
        &OutboundLaneData { latest_generated_nonce: 9, latest_received_nonce: 1 },
        &InboundLaneData { latest_received_nonce: 2, relayers: entries.clone() },
        &details(7),
        &input(limits, 0, 9),
        &AltruisticStrategy,
    );
    assert_eq!(
        step,
        Ok(LaneStep {
            selection: DeliverySelection::Range {
                begin: 3,
                end: 5,
                size: 300,
                dispatch_weight: 3_000,
                reward: 30
            },
            decision: Some(RelayDecision::RelayNow),
            confirmation: Some(2),
            rate_update: None,
        })
    );
    assert_eq!(snapshot(&state), (9, 1, 2, entries.clone()));

    // a report that falls behind stops the step and changes nothing
    let step = state.sync_step(
        &OutboundLaneData { latest_generated_nonce: 8, latest_received_nonce: 1 },
        &InboundLaneData { latest_received_nonce: 2, relayers: entries.clone() },
        &details(7),
        &input(limits, 0, 9),
        &AltruisticStrategy,
    );
    assert_eq!(step, Err(LaneError::NonceRegression));
    assert_eq!(snapshot(&state), (9, 1, 2, entries));
}

#[test]
fn step_asks_for_a_new_conversion_rate_when_it_drifts() {
    let state = lane(5, 5, 5, vec![]);
    let mut input = input(wide_limits(), 0, 5);
    input.rate_estimate = Some(FixedU128 { inner: FIXED_DIV + FIXED_DIV / 10 });
    let step = state.plan_step(&vec![], &input, &AltruisticStrategy);
    assert_eq!(step.rate_update, None);
    assert_eq!(step.selection, DeliverySelection::Nothing);
    assert_eq!(step.decision, None);
    assert_eq!(step.confirmation, None);
    input.rate_estimate = Some(FixedU128 { inner: FIXED_DIV + FIXED_DIV / 5 });
    let step = state.plan_step(&vec![], &input, &AltruisticStrategy);
    assert_eq!(step.rate_update, Some(FixedU128 { inner: FIXED_DIV + FIXED_DIV / 5 }));
    input.rate_tolerance = FixedU128 { inner: FIXED_DIV / 2 };
    let step = state.plan_step(&vec![], &input, &AltruisticStrategy);
    assert_eq!(step.rate_update, None);
}

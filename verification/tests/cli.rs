use pass3d_bridge::calls::{
    receive_messages_proof_call, Call, Chain, EncodeError, PalletCall, XcmDestination,
};
use pass3d_bridge::chains_pass3dt;
use pass3d_bridge::cli_bridge::{PASS3DT_TO_PASS3D_INDEX, PASS3D_TO_PASS3DT_INDEX};
use pass3d_bridge::client_pass3d;
use pass3d_bridge::conversion_rate::select_conversion_rate_update;
use pass3d_bridge::fixed::{FixedU128, FIXED_DIV};
use pass3d_bridge::init_bridge::{str_eq, InitBridgeName};
use pass3d_bridge::origin::{is_lane_served, Origin, OriginCaller};
use pass3d_bridge::pass3d_headers_to_pass3dt::{Pass3dFinalityToPass3dt, Pass3dToPass3dtCliBridge};
use pass3d_bridge::pass3d_messages;
use pass3d_bridge::pass3d_messages_to_pass3dt::Pass3dMessagesToPass3dt;
use pass3d_bridge::pass3dt_headers_to_pass3d::{Pass3dtFinalityToPass3d, Pass3dtToPass3dCliBridge};
use pass3d_bridge::pass3dt_messages;
use pass3d_bridge::pass3dt_messages_to_pass3d::Pass3dtMessagesToPass3d;

const ALL: [InitBridgeName; 6] = [
    InitBridgeName::MillauToRialto,
    InitBridgeName::RialtoToMillau,
    InitBridgeName::WestendToMillau,
    InitBridgeName::MillauToRialtoParachain,
    InitBridgeName::Pass3dtToPass3d,
    InitBridgeName::Pass3dToPass3dt,
];

#[test]
fn bridges_are_found_by_their_names() {
    assert_eq!(InitBridgeName::from_name("millau-to-rialto"), Some(InitBridgeName::MillauToRialto));
    assert_eq!(InitBridgeName::from_name("rialto-to-millau"), Some(InitBridgeName::RialtoToMillau));
    assert_eq!(InitBridgeName::from_name("westend-to-millau"), Some(InitBridgeName::WestendToMillau));
    assert_eq!(
        InitBridgeName::from_name("millau-to-rialto-parachain"),
        Some(InitBridgeName::MillauToRialtoParachain)
    );
    assert_eq!(InitBridgeName::from_name("pass3dt-to-pass3d"), Some(InitBridgeName::Pass3dtToPass3d));
    assert_eq!(InitBridgeName::from_name("pass3d-to-pass3dt"), Some(InitBridgeName::Pass3dToPass3dt));
    for bridge in ALL {
        assert_eq!(InitBridgeName::from_name(bridge.name()), Some(bridge));
    }
}

#[test]
fn other_names_are_no_bridges() {
    assert_eq!(InitBridgeName::from_name(""), None);
    assert_eq!(InitBridgeName::from_name("pass3d-to-pass3d"), None);
    assert_eq!(InitBridgeName::from_name("Pass3dToPass3dt"), None);
    assert_eq!(InitBridgeName::from_name("PASS3D-TO-PASS3DT"), None);
    assert_eq!(InitBridgeName::from_name("pass3d-to-pass3dt "), None);
    assert_eq!(InitBridgeName::from_name("millau-to-rialto-"), None);
    assert!(str_eq("abc", "abc"));
    assert!(!str_eq("abc", "abd"));
    assert!(!str_eq("abc", "ab"));
    assert!(str_eq("", ""));
}

#[test]
fn bridges_name_their_chains() {
    assert_eq!(InitBridgeName::Pass3dToPass3dt.source(), Chain::Pass3d);
    assert_eq!(InitBridgeName::Pass3dToPass3dt.target(), Chain::Pass3dt);
    assert_eq!(InitBridgeName::Pass3dtToPass3d.source(), Chain::Pass3dt);
    assert_eq!(InitBridgeName::Pass3dtToPass3d.target(), Chain::Pass3d);
    assert_eq!(InitBridgeName::MillauToRialtoParachain.source(), Chain::Millau);
    assert_eq!(InitBridgeName::MillauToRialtoParachain.target(), Chain::RialtoParachain);
    assert_eq!(InitBridgeName::WestendToMillau.source(), Chain::Westend);
    assert_eq!(InitBridgeName::WestendToMillau.target(), Chain::Millau);
    assert_eq!(InitBridgeName::RialtoToMillau.source(), Chain::Rialto);
    assert_eq!(InitBridgeName::MillauToRialto.target(), Chain::Rialto);
    assert_eq!(Pass3dFinalityToPass3dt::source_chain(), Chain::Pass3d);
    assert_eq!(Pass3dFinalityToPass3dt::target_chain(), Chain::Pass3dt);
    assert_eq!(Pass3dtFinalityToPass3d::source_chain(), Chain::Pass3dt);
    assert_eq!(Pass3dtFinalityToPass3d::target_chain(), Chain::Pass3d);
    assert_eq!(Pass3dToPass3dtCliBridge::source(), Chain::Pass3d);
    assert_eq!(Pass3dToPass3dtCliBridge::target(), Chain::Pass3dt);
    assert_eq!(Pass3dtToPass3dCliBridge::source(), Chain::Pass3dt);
    assert_eq!(Pass3dtToPass3dCliBridge::target(), Chain::Pass3d);
    assert_eq!(Pass3dMessagesToPass3dt::source_chain(), Chain::Pass3d);
    assert_eq!(Pass3dMessagesToPass3dt::target_chain(), Chain::Pass3dt);
    assert_eq!(Pass3dtMessagesToPass3d::source_chain(), Chain::Pass3dt);
    assert_eq!(Pass3dtMessagesToPass3d::target_chain(), Chain::Pass3d);
}

#[test]
fn bridges_are_initialized_by_the_superuser_but_one() {
    for bridge in ALL {
        let initialize = PalletCall::BridgeGrandpaInitialize {
            bridged_chain: bridge.source(),
            init_data: vec![1, 2, 3],
        };
        let expected = if bridge == InitBridgeName::WestendToMillau {
            Call::Direct(initialize)
        } else {
            Call::Sudo(initialize)
        };
        assert_eq!(bridge.encode_init_bridge(vec![1, 2, 3]), expected);
    }
    assert_eq!(
        InitBridgeName::Pass3dToPass3dt.encode_init_bridge(vec![9]),
        Call::Sudo(PalletCall::BridgeGrandpaInitialize {
            bridged_chain: Chain::Pass3d,
            init_data: vec![9]
        })
    );
}

#[test]
fn messages_are_sent_over_the_supported_bridge_only() {
    assert_eq!(
        client_pass3d::Pass3d::encode_send_message_call(
            [0, 0, 0, 1],
            vec![4, 5],
            100,
            PASS3D_TO_PASS3DT_INDEX
        ),
        Ok(Call::Direct(PalletCall::SendMessage {
            bridged_chain: Chain::Pass3dt,
            lane_id: [0, 0, 0, 1],
            payload: vec![4, 5],
            delivery_and_dispatch_fee: 100
        }))
    );
    assert_eq!(
        client_pass3d::Pass3d::encode_send_message_call([0, 0, 0, 1], vec![4, 5], 100, 7),
        Err(EncodeError::UnsupportedBridgeInstance { index: 7 })
    );
    assert_eq!(
        chains_pass3dt::Pass3dt::encode_send_message_call(
            [0, 0, 0, 0],
            vec![6],
            u64::MAX,
            PASS3DT_TO_PASS3D_INDEX
        ),
        Ok(Call::Direct(PalletCall::SendMessage {
            bridged_chain: Chain::Pass3d,
            lane_id: [0, 0, 0, 0],
            payload: vec![6],
            delivery_and_dispatch_fee: u64::MAX as u128
        }))
    );
    assert_eq!(
        chains_pass3dt::Pass3dt::encode_send_message_call([0, 0, 0, 0], vec![6], 1, 255),
        Err(EncodeError::UnsupportedBridgeInstance { index: 255 })
    );
    assert_eq!(chains_pass3dt::Pass3dt::NAME, "Pass3dt");
}

#[test]
fn xcm_is_sent_to_the_bridged_network() {
    let expected = |network: Vec<u8>| {
        Ok(Call::Direct(PalletCall::XcmSend {
            dest: XcmDestination { parents: 1, global_consensus: network },
            message: vec![1, 2],
        }))
    };
    assert_eq!(
        client_pass3d::Pass3d::encode_send_xcm(vec![1, 2], PASS3D_TO_PASS3DT_INDEX, vec![8]),
        expected(vec![8])
    );
    assert_eq!(
        client_pass3d::Pass3d::encode_send_xcm(vec![1, 2], 1, vec![8]),
        Err(EncodeError::UnsupportedBridgeInstance { index: 1 })
    );
    assert_eq!(
        chains_pass3dt::Pass3dt::encode_send_xcm(vec![1, 2], PASS3DT_TO_PASS3D_INDEX, vec![9]),
        expected(vec![9])
    );
    assert_eq!(
        chains_pass3dt::Pass3dt::encode_send_xcm(vec![1, 2], 3, vec![9]),
        Err(EncodeError::UnsupportedBridgeInstance { index: 3 })
    );
}

#[test]
fn delivery_call_counts_the_messages() {
    let call = receive_messages_proof_call(Chain::Pass3d, [1u8; 32], vec![5], 4, 6, 900);
    assert_eq!(
        call,
        Ok(Call::Direct(PalletCall::ReceiveMessagesProof {
            bridged_chain: Chain::Pass3d,
            relayer: [1u8; 32],
            proof: vec![5],
            messages_count: 3,
            dispatch_weight: 900
        }))
    );
    let one = receive_messages_proof_call(Chain::Pass3d, [1u8; 32], vec![], 4, 4, 0);
    assert!(matches!(
        one,
        Ok(Call::Direct(PalletCall::ReceiveMessagesProof { messages_count: 1, .. }))
    ));
    assert_eq!(
        receive_messages_proof_call(Chain::Pass3d, [1u8; 32], vec![], 5, 4, 0),
        Err(EncodeError::TooManyMessages)
    );
    assert_eq!(
        receive_messages_proof_call(Chain::Pass3d, [1u8; 32], vec![], 1, u32::MAX as u64 + 1, 0),
        Err(EncodeError::TooManyMessages)
    );
    let most = receive_messages_proof_call(Chain::Pass3d, [1u8; 32], vec![], 1, u32::MAX as u64, 0);
    assert!(matches!(
        most,
        Ok(Call::Direct(PalletCall::ReceiveMessagesProof { messages_count: u32::MAX, .. }))
    ));
}

#[test]
fn pipelines_build_their_calls() {
    assert_eq!(
        Pass3dFinalityToPass3dt::submit_finality_proof_call(vec![1], vec![2]),
        Call::Direct(PalletCall::SubmitFinalityProof {
            bridged_chain: Chain::Pass3d,
            finality_target: vec![1],
            justification: vec![2]
        })
    );
    assert_eq!(
        Pass3dtFinalityToPass3d::submit_finality_proof_call(vec![1], vec![2]),
        Call::Direct(PalletCall::SubmitFinalityProof {
            bridged_chain: Chain::Pass3dt,
            finality_target: vec![1],
            justification: vec![2]
        })
    );
    let rate = FixedU128 { inner: 3 * FIXED_DIV };
    assert_eq!(
        Pass3dMessagesToPass3dt::update_conversion_rate_call(rate),
        Call::Direct(PalletCall::UpdateConversionRate { bridged_chain: Chain::Pass3dt, new_rate: rate })
    );
    assert_eq!(
        Pass3dtMessagesToPass3d::update_conversion_rate_call(rate),
        Call::Direct(PalletCall::UpdateConversionRate { bridged_chain: Chain::Pass3d, new_rate: rate })
    );
    assert_eq!(
        Pass3dMessagesToPass3dt::conversion_rate_parameter(rate),
        pass3dt_messages::Pass3dToPass3dtMessagesParameter::Pass3dtToPass3dConversionRate(rate)
    );
    assert_eq!(
        Pass3dtMessagesToPass3d::conversion_rate_parameter(rate),
        pass3d_messages::Pass3dtToPass3dMessagesParameter::Pass3dToPass3dtConversionRate(rate)
    );
    assert_eq!(
        Pass3dMessagesToPass3dt::receive_messages_delivery_proof_call(vec![7]),
        Call::Direct(PalletCall::ReceiveMessagesDeliveryProof {
            bridged_chain: Chain::Pass3dt,
            proof: vec![7]
        })
    );
    assert_eq!(
        Pass3dtMessagesToPass3d::receive_messages_delivery_proof_call(vec![7]),
        Call::Direct(PalletCall::ReceiveMessagesDeliveryProof {
            bridged_chain: Chain::Pass3d,
            proof: vec![7]
        })
    );
    assert_eq!(Pass3dMessagesToPass3dt::relay_strategy(5).max_backlog_age, 5);
    assert_eq!(Pass3dtMessagesToPass3d::relay_strategy(6).max_backlog_age, 6);
    assert_eq!(
        Pass3dMessagesToPass3dt::source_to_target_conversion_rate_parameter_name(),
        Some("Pass3dToPass3dtConversionRate")
    );
    assert_eq!(
        Pass3dMessagesToPass3dt::target_to_source_conversion_rate_parameter_name(),
        Some("Pass3dtToPass3dConversionRate")
    );
    assert_eq!(
        Pass3dtMessagesToPass3d::source_to_target_conversion_rate_parameter_name(),
        Some("Pass3dtToPass3dConversionRate")
    );
    assert_eq!(
        Pass3dtMessagesToPass3d::target_to_source_conversion_rate_parameter_name(),
        Some("Pass3dToPass3dtConversionRate")
    );
}

#[test]
fn messages_are_accepted_on_the_two_lanes() {
    let xcm = Origin { caller: OriginCaller::XcmPallet { from_here: true } };
    let other = Origin { caller: OriginCaller::Other };
    for origin in [xcm, other] {
        assert!(pass3dt_messages::Pass3d::is_message_accepted(&origin, &[0, 0, 0, 0]));
        assert!(pass3dt_messages::Pass3d::is_message_accepted(&origin, &[0, 0, 0, 1]));
        assert!(!pass3dt_messages::Pass3d::is_message_accepted(&origin, &[0, 0, 0, 2]));
        assert!(!pass3dt_messages::Pass3d::is_message_accepted(&origin, &[1, 0, 0, 0]));
        assert!(!pass3dt_messages::Pass3d::is_message_accepted(&origin, &[0, 0, 1, 1]));
        assert!(pass3d_messages::Pass3dt::is_message_accepted(
            &origin,
            &pass3d_messages::DEFAULT_XCM_LANE_TO_PASS3D
        ));
        assert!(pass3d_messages::Pass3dt::is_message_accepted(&origin, &[0, 0, 0, 1]));
        assert!(!pass3d_messages::Pass3dt::is_message_accepted(&origin, &[0, 1, 0, 0]));
        assert_eq!(origin.linked_account(), None);
    }
    assert!(is_lane_served(&[0, 0, 0, 1]));
    assert!(!is_lane_served(&[255, 255, 255, 255]));
    assert_eq!(pass3dt_messages::Pass3d::maximal_pending_messages_at_outbound_lane(), u64::MAX);
    assert_eq!(pass3d_messages::Pass3dt::maximal_pending_messages_at_outbound_lane(), u64::MAX);
}

#[test]
fn conversion_rate_is_updated_when_it_drifts() {
    let rate = |numerator: u128, denominator: u128| FixedU128 {
        inner: numerator * FIXED_DIV / denominator,
    };
    let tolerance = rate(1, 10);
    assert_eq!(select_conversion_rate_update(rate(1, 1), rate(1, 1), tolerance), None);
    assert_eq!(select_conversion_rate_update(rate(1, 1), rate(11, 10), tolerance), None);
    assert_eq!(select_conversion_rate_update(rate(1, 1), rate(9, 10), tolerance), None);
    assert_eq!(
        select_conversion_rate_update(rate(1, 1), rate(111, 100), tolerance),
        Some(rate(111, 100))
    );
    assert_eq!(
        select_conversion_rate_update(rate(1, 1), rate(89, 100), tolerance),
        Some(rate(89, 100))
    );
    assert_eq!(select_conversion_rate_update(rate(2, 1), rate(22, 10), tolerance), None);
    assert_eq!(
        select_conversion_rate_update(rate(2, 1), rate(23, 10), tolerance),
        Some(rate(23, 10))
    );
    assert_eq!(select_conversion_rate_update(rate(0, 1), rate(0, 1), tolerance), None);
    assert_eq!(select_conversion_rate_update(rate(0, 1), rate(1, 2), tolerance), Some(rate(1, 2)));
    assert_eq!(
        select_conversion_rate_update(rate(1, 1), rate(0, 1), rate(99, 100)),
        Some(rate(0, 1))
    );
    assert_eq!(select_conversion_rate_update(rate(1, 1), rate(0, 1), rate(1, 1)), None);
    // the drift saturates
    let smallest = FixedU128 { inner: 1 };
    let largest = FixedU128 { inner: u128::MAX };
    assert_eq!(select_conversion_rate_update(smallest, largest, tolerance), Some(largest));
    assert_eq!(select_conversion_rate_update(smallest, largest, largest), None);
}

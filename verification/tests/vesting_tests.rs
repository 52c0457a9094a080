use cw_otc::definitions::{Coin, Env, OtcItem, OtcItemInfo, OtcPositionStatus, TransferMsg, VestingInfo};
use cw_otc::functions::assert_received_funds;
use cw_otc::math::mul_ratio;
use cw_otc::response::ContractError;

fn env_at(now: u64) -> Env {
    Env { contract_address: "contract".to_string(), block_time: now }
}

#[test]
fn mul_ratio_rounds_toward_zero() {
    assert_eq!(mul_ratio(100, 1, 3), 33);
    assert_eq!(mul_ratio(100, 2, 3), 66);
    assert_eq!(mul_ratio(100, 3, 3), 100);
    assert_eq!(mul_ratio(7, 1, 2), 3);
    assert_eq!(mul_ratio(0, 5, 9), 0);
}

#[test]
fn mul_ratio_handles_huge_totals() {
    // The intermediate product would overflow a 128-bit word.
    assert_eq!(mul_ratio(u128::MAX, 1, 1), u128::MAX);
    assert_eq!(mul_ratio(u128::MAX, 1, 2), u128::MAX / 2);
    assert_eq!(mul_ratio(u128::MAX - 1, u64::MAX, u64::MAX), u128::MAX - 1);
}

#[test]
fn vesting_validate_requires_one_field() {
    let v = VestingInfo { cliff: None, vesting: None, claimed: 0 };
    assert_eq!(v.validate(), Err(ContractError::VestingInfoEmpty));
}

#[test]
fn vesting_validate_rejects_zero_window() {
    let v = VestingInfo { cliff: Some(10), vesting: Some(0), claimed: 0 };
    assert_eq!(v.validate(), Err(ContractError::VestingWindowZero));
}

#[test]
fn vesting_validate_rejects_zero_cliff() {
    let v = VestingInfo { cliff: Some(0), vesting: Some(10), claimed: 0 };
    assert_eq!(v.validate(), Err(ContractError::CliffZero));
}

#[test]
fn vesting_validate_accepts_cliff_only_and_window_only() {
    assert!(VestingInfo { cliff: Some(5), vesting: None, claimed: 0 }.validate().is_ok());
    assert!(VestingInfo { cliff: None, vesting: Some(5), claimed: 0 }.validate().is_ok());
    assert!(VestingInfo { cliff: Some(5), vesting: Some(5), claimed: 0 }.validate().is_ok());
}

#[test]
fn claim_inside_cliff_yields_zero_and_mutates_nothing() {
    let mut item = OtcItem {
        item_info: OtcItemInfo::Cw20 { contract: "tok".to_string(), amount: 1000 },
        vesting_info: Some(VestingInfo { cliff: Some(1000), vesting: Some(2000), claimed: 0 }),
    };
    let status = OtcPositionStatus::Vesting(5000);
    let got = item
        .sendable_amount_and_update_claimed_amount(&env_at(5500), &status)
        .unwrap();
    assert_eq!(got, 0);
    assert_eq!(item.vesting_info.unwrap().claimed, 0);
}

#[test]
fn claim_at_window_midpoint_yields_half() {
    let mut item = OtcItem {
        item_info: OtcItemInfo::Cw20 { contract: "tok".to_string(), amount: 1000 },
        vesting_info: Some(VestingInfo { cliff: Some(1000), vesting: Some(2000), claimed: 0 }),
    };
    let status = OtcPositionStatus::Vesting(5000);
    // 1000 seconds of cliff, then 1000 of the 2000-second window.
    let got = item
        .sendable_amount_and_update_claimed_amount(&env_at(7000), &status)
        .unwrap();
    assert_eq!(got, 500);
    assert_eq!(item.vesting_info.unwrap().claimed, 500);
}

#[test]
fn claim_past_window_yields_remainder_and_then_zero() {
    let mut item = OtcItem {
        item_info: OtcItemInfo::Cw20 { contract: "tok".to_string(), amount: 1000 },
        vesting_info: Some(VestingInfo { cliff: Some(1000), vesting: Some(2000), claimed: 500 }),
    };
    let status = OtcPositionStatus::Vesting(5000);
    let got = item
        .sendable_amount_and_update_claimed_amount(&env_at(9000), &status)
        .unwrap();
    assert_eq!(got, 500);
    assert_eq!(item.vesting_info.unwrap().claimed, 1000);
    let again = item
        .sendable_amount_and_update_claimed_amount(&env_at(9000), &status)
        .unwrap();
    assert_eq!(again, 0);
    assert_eq!(item.vesting_info.unwrap().claimed, 1000);
}

#[test]
fn cliff_only_schedule_unlocks_everything_past_cliff() {
    let mut item = OtcItem {
        item_info: OtcItemInfo::Token { denom: "u".to_string(), amount: 640 },
        vesting_info: Some(VestingInfo { cliff: Some(100), vesting: None, claimed: 0 }),
    };
    let status = OtcPositionStatus::Vesting(0);
    assert_eq!(
        item.sendable_amount_and_update_claimed_amount(&env_at(100), &status).unwrap(),
        0
    );
    assert_eq!(
        item.sendable_amount_and_update_claimed_amount(&env_at(101), &status).unwrap(),
        640
    );
    assert_eq!(item.vesting_info.unwrap().claimed, 640);
}

#[test]
fn unscheduled_item_always_yields_its_full_quantity() {
    let mut item = OtcItem {
        item_info: OtcItemInfo::Cw721 { contract: "nft".to_string(), token_id: "7".to_string() },
        vesting_info: None,
    };
    let status = OtcPositionStatus::Vesting(0);
    assert_eq!(
        item.sendable_amount_and_update_claimed_amount(&env_at(5), &status).unwrap(),
        1
    );
    assert_eq!(
        item.sendable_amount_and_update_claimed_amount(&env_at(5), &status).unwrap(),
        1
    );
}

#[test]
fn scheduled_item_cannot_settle_outside_vesting() {
    let mut item = OtcItem {
        item_info: OtcItemInfo::Token { denom: "u".to_string(), amount: 10 },
        vesting_info: Some(VestingInfo { cliff: Some(1), vesting: None, claimed: 0 }),
    };
    assert_eq!(
        item.sendable_amount_and_update_claimed_amount(&env_at(5), &OtcPositionStatus::Pending),
        Err(ContractError::StatusNotVesting)
    );
    assert_eq!(
        item.sendable_amount_and_update_claimed_amount(
            &env_at(5),
            &OtcPositionStatus::Executed(3)
        ),
        Err(ContractError::StatusNotVesting)
    );
}

#[test]
fn build_send_msg_rejects_explicit_zero() {
    let info = OtcItemInfo::Token { denom: "u".to_string(), amount: 10 };
    let env = env_at(0);
    let got = info.build_send_msg(
        &env,
        &"contract".to_string(),
        &"alice".to_string(),
        Some(0),
    );
    assert_eq!(got, Err(ContractError::InvalidZeroAmount));
}

#[test]
fn build_send_msg_native_only_from_contract() {
    let info = OtcItemInfo::Token { denom: "u".to_string(), amount: 10 };
    let env = env_at(0);
    let got = info.build_send_msg(&env, &"alice".to_string(), &"bob".to_string(), None);
    assert_eq!(got, Err(ContractError::NativeSenderNotContract));
    let ok = info
        .build_send_msg(&env, &"contract".to_string(), &"bob".to_string(), None)
        .unwrap();
    assert_eq!(
        ok,
        TransferMsg::Bank { to_address: "bob".to_string(), denom: "u".to_string(), amount: 10 }
    );
}

#[test]
fn build_send_msg_pulls_tokens_by_allowance_for_third_parties() {
    let info = OtcItemInfo::Cw20 { contract: "tok".to_string(), amount: 42 };
    let env = env_at(0);
    let from_contract = info
        .build_send_msg(&env, &"contract".to_string(), &"bob".to_string(), Some(7))
        .unwrap();
    assert_eq!(
        from_contract,
        TransferMsg::Cw20Transfer {
            contract: "tok".to_string(),
            recipient: "bob".to_string(),
            amount: 7
        }
    );
    let from_alice = info
        .build_send_msg(&env, &"alice".to_string(), &"bob".to_string(), None)
        .unwrap();
    assert_eq!(
        from_alice,
        TransferMsg::Cw20TransferFrom {
            contract: "tok".to_string(),
            owner: "alice".to_string(),
            recipient: "bob".to_string(),
            amount: 42
        }
    );
}

#[test]
fn status_helpers_report_labels_and_pending() {
    assert_eq!(OtcPositionStatus::Pending.as_string_ref(), "pending");
    assert_eq!(OtcPositionStatus::Vesting(9).as_string_ref(), "vesting");
    assert_eq!(OtcPositionStatus::Executed(9).as_string_ref(), "executed");
    assert!(OtcPositionStatus::Pending.is_in_pending());
    assert!(!OtcPositionStatus::Vesting(9).is_in_pending());
    assert_eq!(OtcPositionStatus::Vesting(9).get_vesting_start(), Ok(9));
    assert_eq!(
        OtcPositionStatus::Pending.get_vesting_start(),
        Err(ContractError::StatusNotVesting)
    );
}

#[test]
fn received_funds_returns_surpluses_in_bundle_order() {
    let items = vec![
        OtcItemInfo::Token { denom: "u".to_string(), amount: 100 },
        OtcItemInfo::Cw20 { contract: "tok".to_string(), amount: 9 },
        OtcItemInfo::Token { denom: "v".to_string(), amount: 30 },
    ];
    let funds = vec![
        Coin { denom: "u".to_string(), amount: 150 },
        Coin { denom: "v".to_string(), amount: 30 },
    ];
    let surpluses = assert_received_funds(&items, &funds).unwrap();
    assert_eq!(surpluses.len(), 2);
    assert_eq!(surpluses[0].denom, "u");
    assert_eq!(surpluses[0].amount, 50);
    assert_eq!(surpluses[1].denom, "v");
    assert_eq!(surpluses[1].amount, 0);
}

#[test]
fn received_funds_reports_missing_and_short_coins() {
    let items = vec![OtcItemInfo::Token { denom: "u".to_string(), amount: 100 }];
    let missing = assert_received_funds(&items, &vec![]);
    assert_eq!(missing, Err(ContractError::CoinNotReceived { denom: "u".to_string() }));
    let short = assert_received_funds(
        &items,
        &vec![Coin { denom: "u".to_string(), amount: 99 }],
    );
    assert_eq!(short, Err(ContractError::CoinAmountTooLow { denom: "u".to_string() }));
}

#[test]
fn received_funds_checks_each_requirement_against_all_attached_coins() {
    // Two requirements of the same denomination are each checked against the
    // attached coins as a whole, not against what the other left over.
    let items = vec![
        OtcItemInfo::Token { denom: "u".to_string(), amount: 60 },
        OtcItemInfo::Token { denom: "u".to_string(), amount: 60 },
    ];
    let funds = vec![Coin { denom: "u".to_string(), amount: 100 }];
    let surpluses = assert_received_funds(&items, &funds).unwrap();
    assert_eq!(surpluses.len(), 2);
    assert_eq!(surpluses[0].amount, 40);
    assert_eq!(surpluses[1].amount, 40);
}

use cw_otc::definitions::{Coin, Config, Env, MessageInfo, OtcItemInfo, OtcPositionStatus, TransferMsg};
use cw_otc::execute::{run_cancel_otc, run_claim_otc, run_create_otc, run_execute_otc};
use cw_otc::msgs::{
    CancelOtcMsg, ClaimOtcMsg, CreateOtcMsg, ExecuteOtcMsg, OtcItemRegistration,
    VestingInfoRegistration,
};
use cw_otc::query::qy_position;
use cw_otc::response::{AttrValue, ContractError, Response};
use cw_otc::state::{positions, PositionStore};

const CONTRACT: &str = "contract";
const CREATOR: &str = "creator";
const EXECUTOR: &str = "executor";
const COLLECTOR: &str = "fee_collector";

fn env_at(now: u64) -> Env {
    Env { contract_address: CONTRACT.to_string(), block_time: now }
}

fn info(sender: &str, funds: Vec<Coin>) -> MessageInfo {
    MessageInfo { sender: sender.to_string(), funds }
}

fn coin(amount: u128, denom: &str) -> Coin {
    Coin { denom: denom.to_string(), amount }
}

fn valid_addrs() -> Vec<String> {
    vec![
        "cw20offer".to_string(),
        "nftoffer".to_string(),
        "cw20ask".to_string(),
        "nftask".to_string(),
        EXECUTOR.to_string(),
    ]
}

fn native(amount: u128, denom: &str) -> OtcItemRegistration {
    OtcItemRegistration {
        item_info: OtcItemInfo::Token { denom: denom.to_string(), amount },
        vesting: None,
    }
}

fn fungible(contract: &str, amount: u128) -> OtcItemRegistration {
    OtcItemRegistration {
        item_info: OtcItemInfo::Cw20 { contract: contract.to_string(), amount },
        vesting: None,
    }
}

fn nft(contract: &str, token_id: &str) -> OtcItemRegistration {
    OtcItemRegistration {
        item_info: OtcItemInfo::Cw721 {
            contract: contract.to_string(),
            token_id: token_id.to_string(),
        },
        vesting: None,
    }
}

/// A configuration charging a five-unit native fee. The fee is verified
/// against the surplus left over the bundle's own native requirements, so it
/// shares the bundle's denomination.
fn fee_config() -> Config {
    Config::new(
        "owner".to_string(),
        vec![OtcItemInfo::Token { denom: "u".to_string(), amount: 5 }],
        COLLECTOR.to_string(),
        &valid_addrs(),
    )
    .unwrap()
}

fn bank(to: &str, denom: &str, amount: u128) -> TransferMsg {
    TransferMsg::Bank { to_address: to.to_string(), denom: denom.to_string(), amount }
}

fn attr_is_text(resp: &Response, i: usize, key: &str, value: &str) -> bool {
    resp.attributes[i].key == key
        && resp.attributes[i].value == AttrValue::Text(value.to_string())
}

/// The full immediate-settlement swap: three-item bundles, explicit executor,
/// no vesting; execution settles both sides at once and the fee is forwarded
/// on create and again on execute.
#[test]
fn immediate_swap_settles_both_bundles_and_closes() {
    let mut config = fee_config();
    let mut store = positions();
    let valid = valid_addrs();

    let msg = CreateOtcMsg {
        executor: Some(EXECUTOR.to_string()),
        offer: vec![native(100, "u"), fungible("cw20offer", 50), nft("nftoffer", "1")],
        ask: vec![native(100, "u"), fungible("cw20ask", 50), nft("nftask", "1")],
    };

    // Funds covering the offer but leaving no surplus for the fee: rejected
    // before any state write.
    let short = run_create_otc(
        &mut config,
        &mut store,
        &env_at(10),
        &info(CREATOR, vec![coin(100, "u")]),
        CreateOtcMsg {
            executor: Some(EXECUTOR.to_string()),
            offer: vec![native(100, "u"), fungible("cw20offer", 50), nft("nftoffer", "1")],
            ask: vec![native(100, "u"), fungible("cw20ask", 50), nft("nftask", "1")],
        },
        &valid,
    );
    assert_eq!(short, Err(ContractError::CoinAmountTooLow { denom: "u".to_string() }));
    assert_eq!(config.counter_otc, 0);

    let resp = run_create_otc(
        &mut config,
        &mut store,
        &env_at(10),
        &info(CREATOR, vec![coin(105, "u")]),
        msg,
        &valid,
    )
    .unwrap();

    assert_eq!(config.counter_otc, 1);
    assert_eq!(
        resp.messages,
        vec![
            TransferMsg::Cw20TransferFrom {
                contract: "cw20offer".to_string(),
                owner: CREATOR.to_string(),
                recipient: CONTRACT.to_string(),
                amount: 50,
            },
            TransferMsg::Cw721TransferNft {
                contract: "nftoffer".to_string(),
                recipient: CONTRACT.to_string(),
                token_id: "1".to_string(),
            },
            bank(COLLECTOR, "u", 5),
        ]
    );
    assert!(attr_is_text(&resp, 0, "action", "create_otc"));
    assert!(attr_is_text(&resp, 1, "executor", EXECUTOR));
    assert_eq!(resp.attributes[2].value, AttrValue::Id(1));

    let stored = qy_position(&store, 1).unwrap();
    assert!(matches!(stored.status, OtcPositionStatus::Pending));
    assert_eq!(stored.owner, CREATOR);

    // A stranger cannot execute a position with a designated executor.
    let stranger = run_execute_otc(
        &config,
        &mut store,
        &env_at(20),
        &info("stranger", vec![coin(105, "u")]),
        ExecuteOtcMsg { id: 1 },
    );
    assert_eq!(stranger, Err(ContractError::Unauthorized));

    let resp = run_execute_otc(
        &config,
        &mut store,
        &env_at(20),
        &info(EXECUTOR, vec![coin(105, "u")]),
        ExecuteOtcMsg { id: 1 },
    )
    .unwrap();

    assert_eq!(
        resp.messages,
        vec![
            // The executor's ask-side token deposits.
            TransferMsg::Cw20TransferFrom {
                contract: "cw20ask".to_string(),
                owner: EXECUTOR.to_string(),
                recipient: CONTRACT.to_string(),
                amount: 50,
            },
            TransferMsg::Cw721TransferNft {
                contract: "nftask".to_string(),
                recipient: CONTRACT.to_string(),
                token_id: "1".to_string(),
            },
            // The fee, forwarded a second time.
            bank(COLLECTOR, "u", 5),
            // The owner receives the full ask bundle.
            bank(CREATOR, "u", 100),
            TransferMsg::Cw20Transfer {
                contract: "cw20ask".to_string(),
                recipient: CREATOR.to_string(),
                amount: 50,
            },
            TransferMsg::Cw721TransferNft {
                contract: "nftask".to_string(),
                recipient: CREATOR.to_string(),
                token_id: "1".to_string(),
            },
            // The executor receives the full offer bundle.
            bank(EXECUTOR, "u", 100),
            TransferMsg::Cw20Transfer {
                contract: "cw20offer".to_string(),
                recipient: EXECUTOR.to_string(),
                amount: 50,
            },
            TransferMsg::Cw721TransferNft {
                contract: "nftoffer".to_string(),
                recipient: EXECUTOR.to_string(),
                token_id: "1".to_string(),
            },
        ]
    );

    // No vesting items: vesting is entered and immediately closed.
    assert!(attr_is_text(&resp, 0, "action", "execute_otc"));
    assert_eq!(resp.attributes[1].value, AttrValue::Id(1));
    assert!(attr_is_text(&resp, 2, "after_action", "position_status_change"));
    assert!(attr_is_text(&resp, 3, "pre_status", "vesting"));
    assert!(attr_is_text(&resp, 4, "current_status", "executed"));

    let stored = qy_position(&store, 1).unwrap();
    assert!(matches!(stored.status, OtcPositionStatus::Executed(20)));

    // A closed position cannot be executed again.
    let again = run_execute_otc(
        &config,
        &mut store,
        &env_at(30),
        &info(EXECUTOR, vec![coin(105, "u")]),
        ExecuteOtcMsg { id: 1 },
    );
    assert_eq!(again, Err(ContractError::ExecuteRequiresPending));
}

fn vested_position_setup() -> (Config, PositionStore, Vec<String>) {
    let mut config = Config::new(
        "owner".to_string(),
        vec![],
        COLLECTOR.to_string(),
        &valid_addrs(),
    )
    .unwrap();
    let mut store = positions();
    let valid = valid_addrs();
    let msg = CreateOtcMsg {
        executor: Some(EXECUTOR.to_string()),
        offer: vec![OtcItemRegistration {
            item_info: OtcItemInfo::Cw20 { contract: "cw20offer".to_string(), amount: 1000 },
            vesting: Some(VestingInfoRegistration { cliff: Some(1000), vesting: Some(2000) }),
        }],
        ask: vec![native(10, "u")],
    };
    run_create_otc(&mut config, &mut store, &env_at(1), &info(CREATOR, vec![]), msg, &valid)
        .unwrap();
    // Vesting starts at time 5000.
    run_execute_otc(
        &config,
        &mut store,
        &env_at(5000),
        &info(EXECUTOR, vec![coin(10, "u")]),
        ExecuteOtcMsg { id: 1 },
    )
    .unwrap();
    (config, store, valid)
}

/// Cliff, midpoint and tail of a linear schedule: zero inside the cliff,
/// exactly half at the window midpoint, the remainder at the end, and the
/// position closes once everything is claimed.
#[test]
fn cliff_window_schedule_releases_linearly() {
    let (_config, mut store, _valid) = vested_position_setup();

    let stored = qy_position(&store, 1).unwrap();
    assert!(matches!(stored.status, OtcPositionStatus::Vesting(5000)));

    // Still inside the cliff: the computed transfer set is empty, so the
    // claim fails and mutates nothing.
    let in_cliff = run_claim_otc(
        &mut store,
        &env_at(5500),
        &info(EXECUTOR, vec![]),
        ClaimOtcMsg { id: 1 },
    );
    assert_eq!(in_cliff, Err(ContractError::NothingToClaim));
    let stored = qy_position(&store, 1).unwrap();
    assert_eq!(stored.offer[0].vesting_info.unwrap().claimed, 0);

    // Midpoint of the window (1000 s cliff + 1000 of 2000 s): exactly half.
    let resp = run_claim_otc(
        &mut store,
        &env_at(7000),
        &info(EXECUTOR, vec![]),
        ClaimOtcMsg { id: 1 },
    )
    .unwrap();
    assert_eq!(
        resp.messages,
        vec![TransferMsg::Cw20Transfer {
            contract: "cw20offer".to_string(),
            recipient: EXECUTOR.to_string(),
            amount: 500,
        }]
    );
    assert_eq!(resp.attributes.len(), 2);
    let stored = qy_position(&store, 1).unwrap();
    assert_eq!(stored.offer[0].vesting_info.unwrap().claimed, 500);
    assert!(matches!(stored.status, OtcPositionStatus::Vesting(5000)));

    // Claiming again at the same instant yields nothing and changes nothing.
    let again = run_claim_otc(
        &mut store,
        &env_at(7000),
        &info(EXECUTOR, vec![]),
        ClaimOtcMsg { id: 1 },
    );
    assert_eq!(again, Err(ContractError::NothingToClaim));
    let stored = qy_position(&store, 1).unwrap();
    assert_eq!(stored.offer[0].vesting_info.unwrap().claimed, 500);

    // Far past the window: the remainder comes out and the position closes.
    let resp = run_claim_otc(
        &mut store,
        &env_at(9999),
        &info(EXECUTOR, vec![]),
        ClaimOtcMsg { id: 1 },
    )
    .unwrap();
    assert_eq!(
        resp.messages,
        vec![TransferMsg::Cw20Transfer {
            contract: "cw20offer".to_string(),
            recipient: EXECUTOR.to_string(),
            amount: 500,
        }]
    );
    assert_eq!(resp.attributes.len(), 5);
    let stored = qy_position(&store, 1).unwrap();
    assert_eq!(stored.offer[0].vesting_info.unwrap().claimed, 1000);
    assert!(matches!(stored.status, OtcPositionStatus::Executed(9999)));
}

/// Only the owner or the executor may claim; a claim of the owner settles the
/// ask bundle.
#[test]
fn claim_authorization_and_owner_side() {
    let (_config, mut store, _valid) = vested_position_setup();

    let stranger = run_claim_otc(
        &mut store,
        &env_at(6000),
        &info("stranger", vec![]),
        ClaimOtcMsg { id: 1 },
    );
    assert_eq!(stranger, Err(ContractError::Unauthorized));

    // The ask bundle (10 native, unscheduled) was already paid out on
    // execute, but its unscheduled item still yields its full quantity.
    let resp = run_claim_otc(
        &mut store,
        &env_at(6000),
        &info(CREATOR, vec![]),
        ClaimOtcMsg { id: 1 },
    )
    .unwrap();
    assert_eq!(resp.messages, vec![bank(CREATOR, "u", 10)]);

    let missing = run_claim_otc(
        &mut store,
        &env_at(6000),
        &info(CREATOR, vec![]),
        ClaimOtcMsg { id: 9 },
    );
    assert_eq!(missing, Err(ContractError::PositionNotFound { id: 9 }));
}

/// Cancelling works exactly while the position is pending, only for the
/// owner, returns the full offer and deletes the record; afterwards the
/// position is gone, and a non-pending position is left fully intact.
#[test]
fn cancel_only_pending_and_only_owner() {
    let mut config = fee_config();
    let mut store = positions();
    let valid = valid_addrs();
    let msg = CreateOtcMsg {
        executor: None,
        offer: vec![native(100, "u"), nft("nftoffer", "3")],
        ask: vec![native(7, "v")],
    };
    run_create_otc(
        &mut config,
        &mut store,
        &env_at(10),
        &info(CREATOR, vec![coin(105, "u")]),
        msg,
        &valid,
    )
    .unwrap();

    let stranger = run_cancel_otc(
        &mut store,
        &env_at(11),
        &info("stranger", vec![]),
        CancelOtcMsg { id: 1 },
    );
    assert_eq!(stranger, Err(ContractError::Unauthorized));
    assert!(qy_position(&store, 1).is_ok());

    let resp = run_cancel_otc(&mut store, &env_at(12), &info(CREATOR, vec![]), CancelOtcMsg {
        id: 1,
    })
    .unwrap();
    assert_eq!(
        resp.messages,
        vec![
            bank(CREATOR, "u", 100),
            TransferMsg::Cw721TransferNft {
                contract: "nftoffer".to_string(),
                recipient: CREATOR.to_string(),
                token_id: "3".to_string(),
            },
        ]
    );
    assert_eq!(
        qy_position(&store, 1),
        Err(ContractError::PositionNotFound { id: 1 })
    );

    // A vesting position cannot be cancelled, and stays retrievable.
    let (_config, mut store, _valid) = vested_position_setup();
    let not_pending = run_cancel_otc(
        &mut store,
        &env_at(6000),
        &info(CREATOR, vec![]),
        CancelOtcMsg { id: 1 },
    );
    assert_eq!(not_pending, Err(ContractError::CancelRequiresPending));
    let stored = qy_position(&store, 1).unwrap();
    assert!(matches!(stored.status, OtcPositionStatus::Vesting(5000)));
    assert_eq!(stored.offer[0].vesting_info.unwrap().claimed, 0);
}

/// An open executor slot is bound to the first caller of execute.
#[test]
fn open_executor_binds_to_first_caller() {
    let mut config = fee_config();
    let mut store = positions();
    let valid = valid_addrs();
    run_create_otc(
        &mut config,
        &mut store,
        &env_at(10),
        &info(CREATOR, vec![coin(6, "u")]),
        CreateOtcMsg { executor: None, offer: vec![native(1, "u")], ask: vec![native(2, "u")] },
        &valid,
    )
    .unwrap();
    let stored = qy_position(&store, 1).unwrap();
    assert_eq!(stored.executor, None);

    run_execute_otc(
        &config,
        &mut store,
        &env_at(20),
        &info("anyone", vec![coin(7, "u")]),
        ExecuteOtcMsg { id: 1 },
    )
    .unwrap();
    let stored = qy_position(&store, 1).unwrap();
    assert_eq!(stored.executor, Some("anyone".to_string()));
}

/// Validation errors on create: unresolvable principals and malformed
/// schedules are rejected before any state write.
#[test]
fn create_rejects_bad_registrations() {
    let mut config = fee_config();
    let mut store = positions();
    let valid = valid_addrs();

    let unknown_executor = run_create_otc(
        &mut config,
        &mut store,
        &env_at(10),
        &info(CREATOR, vec![]),
        CreateOtcMsg { executor: Some("nobody".to_string()), offer: vec![], ask: vec![] },
        &valid,
    );
    assert_eq!(
        unknown_executor,
        Err(ContractError::UnresolvableAddress { addr: "nobody".to_string() })
    );

    let unknown_contract = run_create_otc(
        &mut config,
        &mut store,
        &env_at(10),
        &info(CREATOR, vec![]),
        CreateOtcMsg { executor: None, offer: vec![fungible("mystery", 5)], ask: vec![] },
        &valid,
    );
    assert_eq!(
        unknown_contract,
        Err(ContractError::UnresolvableAddress { addr: "mystery".to_string() })
    );

    let empty_schedule = run_create_otc(
        &mut config,
        &mut store,
        &env_at(10),
        &info(CREATOR, vec![]),
        CreateOtcMsg {
            executor: None,
            offer: vec![OtcItemRegistration {
                item_info: OtcItemInfo::Token { denom: "u".to_string(), amount: 3 },
                vesting: Some(VestingInfoRegistration { cliff: None, vesting: None }),
            }],
            ask: vec![],
        },
        &valid,
    );
    assert_eq!(empty_schedule, Err(ContractError::VestingInfoEmpty));

    let short_funds = run_create_otc(
        &mut config,
        &mut store,
        &env_at(10),
        &info(CREATOR, vec![coin(2, "u")]),
        CreateOtcMsg { executor: None, offer: vec![native(3, "u")], ask: vec![] },
        &valid,
    );
    assert_eq!(short_funds, Err(ContractError::CoinAmountTooLow { denom: "u".to_string() }));

    let missing_coin = run_create_otc(
        &mut config,
        &mut store,
        &env_at(10),
        &info(CREATOR, vec![coin(9, "v")]),
        CreateOtcMsg { executor: None, offer: vec![native(3, "u")], ask: vec![] },
        &valid,
    );
    assert_eq!(missing_coin, Err(ContractError::CoinNotReceived { denom: "u".to_string() }));

    assert_eq!(config.counter_otc, 0);
    assert_eq!(
        qy_position(&store, 1),
        Err(ContractError::PositionNotFound { id: 1 })
    );
}

/// The position closes exactly when every scheduled item across BOTH bundles
/// is fully claimed: one side finishing alone leaves it vesting.
#[test]
fn close_requires_both_bundles_fully_claimed() {
    let mut config = Config::new(
        "owner".to_string(),
        vec![],
        COLLECTOR.to_string(),
        &valid_addrs(),
    )
    .unwrap();
    let mut store = positions();
    let valid = valid_addrs();
    let msg = CreateOtcMsg {
        executor: Some(EXECUTOR.to_string()),
        offer: vec![OtcItemRegistration {
            item_info: OtcItemInfo::Cw20 { contract: "cw20offer".to_string(), amount: 1000 },
            vesting: Some(VestingInfoRegistration { cliff: Some(1000), vesting: Some(2000) }),
        }],
        ask: vec![OtcItemRegistration {
            item_info: OtcItemInfo::Cw20 { contract: "cw20ask".to_string(), amount: 600 },
            vesting: Some(VestingInfoRegistration { cliff: None, vesting: Some(1200) }),
        }],
    };
    run_create_otc(&mut config, &mut store, &env_at(1), &info(CREATOR, vec![]), msg, &valid)
        .unwrap();
    run_execute_otc(
        &config,
        &mut store,
        &env_at(5000),
        &info(EXECUTOR, vec![]),
        ExecuteOtcMsg { id: 1 },
    )
    .unwrap();

    // The owner finishes the whole ask side; the offer side is untouched, so
    // the position stays vesting.
    let resp = run_claim_otc(
        &mut store,
        &env_at(9000),
        &info(CREATOR, vec![]),
        ClaimOtcMsg { id: 1 },
    )
    .unwrap();
    assert_eq!(
        resp.messages,
        vec![TransferMsg::Cw20Transfer {
            contract: "cw20ask".to_string(),
            recipient: CREATOR.to_string(),
            amount: 600,
        }]
    );
    let stored = qy_position(&store, 1).unwrap();
    assert_eq!(stored.ask[0].vesting_info.unwrap().claimed, 600);
    assert!(matches!(stored.status, OtcPositionStatus::Vesting(5000)));

    // The executor finishes the offer side too: now everything is claimed and
    // the position closes.
    let resp = run_claim_otc(
        &mut store,
        &env_at(9000),
        &info(EXECUTOR, vec![]),
        ClaimOtcMsg { id: 1 },
    )
    .unwrap();
    assert_eq!(
        resp.messages,
        vec![TransferMsg::Cw20Transfer {
            contract: "cw20offer".to_string(),
            recipient: EXECUTOR.to_string(),
            amount: 1000,
        }]
    );
    let stored = qy_position(&store, 1).unwrap();
    assert_eq!(stored.offer[0].vesting_info.unwrap().claimed, 1000);
    assert!(matches!(stored.status, OtcPositionStatus::Executed(9000)));
}

/// Claiming against a position that does not vest yet: a scheduled bundle is
/// rejected by the vesting calculator, and an unscheduled one by the close
/// check; either way nothing changes.
#[test]
fn claim_on_pending_position_fails() {
    let mut config = Config::new(
        "owner".to_string(),
        vec![],
        COLLECTOR.to_string(),
        &valid_addrs(),
    )
    .unwrap();
    let mut store = positions();
    let valid = valid_addrs();

    // Position 1: the owner's ask bundle carries a schedule.
    run_create_otc(
        &mut config,
        &mut store,
        &env_at(1),
        &info(CREATOR, vec![]),
        CreateOtcMsg {
            executor: Some(EXECUTOR.to_string()),
            offer: vec![],
            ask: vec![OtcItemRegistration {
                item_info: OtcItemInfo::Cw20 { contract: "cw20ask".to_string(), amount: 10 },
                vesting: Some(VestingInfoRegistration { cliff: Some(5), vesting: None }),
            }],
        },
        &valid,
    )
    .unwrap();
    // Position 2: the owner's ask bundle is unscheduled.
    run_create_otc(
        &mut config,
        &mut store,
        &env_at(1),
        &info(CREATOR, vec![]),
        CreateOtcMsg {
            executor: Some(EXECUTOR.to_string()),
            offer: vec![],
            ask: vec![fungible("cw20ask", 10)],
        },
        &valid,
    )
    .unwrap();

    let scheduled = run_claim_otc(
        &mut store,
        &env_at(2),
        &info(CREATOR, vec![]),
        ClaimOtcMsg { id: 1 },
    );
    assert_eq!(scheduled, Err(ContractError::StatusNotVesting));

    let unscheduled = run_claim_otc(
        &mut store,
        &env_at(2),
        &info(CREATOR, vec![]),
        ClaimOtcMsg { id: 2 },
    );
    assert_eq!(unscheduled, Err(ContractError::TryCloseRequiresVesting));

    assert!(matches!(qy_position(&store, 1).unwrap().status, OtcPositionStatus::Pending));
    assert!(matches!(qy_position(&store, 2).unwrap().status, OtcPositionStatus::Pending));
}

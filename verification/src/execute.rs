//! The four state-changing instructions: create, execute, claim, cancel.
//!
//! Each handler loads the addressed position, applies the business rules, and
//! commits nothing unless every step succeeded: an error leaves the
//! configuration and the store exactly as they were.

use vstd::prelude::*;

verus! {

use crate::definitions::{
    addr_known, all_vested_claimed, claimed_of, item_claim_safe, item_claim_safe_from,
    spec_item_from_registration, spec_validate_items, status_le, Coin, Config, Env, MessageInfo,
    OtcItem, OtcPosition, OtcPositionStatus,
};
use crate::functions::{
    after_action, bundle_settle_err, cancel_otc, collect_otc_items, infos_of, send_fee,
    send_otc_items, spec_collect_msgs, spec_received_funds, spec_send_full_msgs, spec_settle_msgs,
};
use crate::definitions::spec_settled_item;
use crate::msgs::{CancelOtcMsg, ClaimOtcMsg, CreateOtcMsg, ExecuteOtcMsg, OtcItemRegistration};
use crate::response::{
    attr, attr_id, attr_text, AttrValue, ContractError, ContractResponse, Response,
};
use crate::state::{contains_id, get_pos, PositionStore};

/// Settling the stored position at `now` is free of arithmetic failure; the
/// host's monotone clock establishes this for every position the store holds.
pub open spec fn position_claim_safe(p: OtcPosition, now: u64) -> bool {
    &&& forall|i: int|
        0 <= i < p.offer@.len() ==> item_claim_safe(#[trigger] p.offer@[i], p.status, now)
    &&& forall|i: int|
        0 <= i < p.ask@.len() ==> item_claim_safe(#[trigger] p.ask@[i], p.status, now)
}

/// The stored position (if any) can be settled at `now`.
pub open spec fn stored_claim_safe(table: Seq<OtcPosition>, id: u64, now: u64) -> bool {
    match get_pos(table, id) {
        Some(p) => position_claim_safe(p, now),
        None => true,
    }
}

/// A pending position can enter vesting at `now` and run its first
/// settlement pass; creation starts every schedule with nothing claimed,
/// which establishes this.
pub open spec fn position_execute_safe(p: OtcPosition, now: u64) -> bool {
    p.status is Pending ==> {
        &&& forall|i: int|
            0 <= i < p.offer@.len() ==> item_claim_safe_from(#[trigger] p.offer@[i], now, now)
        &&& forall|i: int|
            0 <= i < p.ask@.len() ==> item_claim_safe_from(#[trigger] p.ask@[i], now, now)
    }
}

/// The stored position (if any) can be executed at `now`.
pub open spec fn stored_execute_safe(table: Seq<OtcPosition>, id: u64, now: u64) -> bool {
    match get_pos(table, id) {
        Some(p) => position_execute_safe(p, now),
        None => true,
    }
}

/// Why a create instruction is rejected, if it is: an unresolvable executor,
/// an invalid offer or ask item, or funds short of the offer's native items
/// plus the fee.
pub open spec fn spec_create_err(
    msg: CreateOtcMsg,
    fee: Seq<crate::definitions::OtcItemInfo>,
    funds: Seq<Coin>,
    valid: Seq<String>,
) -> Option<ContractError> {
    let offer = msg.offer@.map_values(|reg: OtcItemRegistration| spec_item_from_registration(reg));
    let ask = msg.ask@.map_values(|reg: OtcItemRegistration| spec_item_from_registration(reg));
    if msg.executor matches Some(e) && !addr_known(valid, e@) {
        Some(ContractError::UnresolvableAddress { addr: msg.executor->Some_0 })
    } else {
        match spec_validate_items(offer, valid) {
            Err(e) => Some(e),
            Ok(_) => match spec_validate_items(ask, valid) {
                Err(e) => Some(e),
                Ok(_) => match spec_received_funds(infos_of(offer), funds) {
                    Err(e) => Some(e),
                    Ok(remaining) => match spec_received_funds(fee, remaining) {
                        Err(e) => Some(e),
                        Ok(_) => None,
                    },
                },
            },
        }
    }
}

/// Opens a position: validates the registration, verifies that the attached
/// funds cover the offer's native items plus the fee, assigns the next
/// sequential id, and persists the new pending position. The response carries
/// the deposit transfers pulling the offer's token items into escrow and the
/// fee forwarding transfers.
pub fn run_create_otc(
    config: &mut Config,
    store: &mut PositionStore,
    env: &Env,
    info: &MessageInfo,
    msg: CreateOtcMsg,
    valid_addrs: &Vec<String>,
) -> (r: ContractResponse)
    requires
        old(store).wf(),
        old(config).counter_otc < u64::MAX,
    ensures
        final(store).wf(),
        match r {
            Err(e) => {
                &&& spec_create_err(msg, old(config).fee@, info.funds@, valid_addrs@) == Some(e)
                &&& *final(config) == *old(config)
                &&& final(store)@ == old(store)@
            },
            Ok(resp) => ({
                let new_id = (old(config).counter_otc + 1) as u64;
                let offer = msg.offer@.map_values(
                    |reg: OtcItemRegistration| spec_item_from_registration(reg),
                );
                let ask = msg.ask@.map_values(
                    |reg: OtcItemRegistration| spec_item_from_registration(reg),
                );
                &&& spec_create_err(msg, old(config).fee@, info.funds@, valid_addrs@) is None
                &&& final(config).counter_otc == new_id
                &&& final(config).owner == old(config).owner
                &&& final(config).fee == old(config).fee
                &&& final(config).fee_collector == old(config).fee_collector
                &&& (forall|i: u64|
                    #[trigger] contains_id(final(store)@, i) <==> contains_id(old(store)@, i) || i
                        == new_id)
                &&& (get_pos(final(store)@, new_id) matches Some(p) && {
                    &&& p.id == new_id
                    &&& p.owner == info.sender
                    &&& p.executor == msg.executor
                    &&& p.offer@ == offer
                    &&& p.ask@ == ask
                    &&& p.creation_time == env.block_time
                    &&& p.status == OtcPositionStatus::Pending
                })
                &&& (forall|i: u64|
                    i != new_id ==> #[trigger] get_pos(final(store)@, i) == get_pos(
                        old(store)@,
                        i,
                    ))
                &&& resp.messages@ == spec_collect_msgs(offer, env.contract_address, info.sender)
                    + spec_send_full_msgs(old(config).fee@, old(config).fee_collector)
                &&& resp.attributes@.len() == 3
                &&& attr_text(resp.attributes@[0], "action"@, "create_otc"@)
                &&& attr_text(
                    resp.attributes@[1],
                    "executor"@,
                    match msg.executor {
                        Some(e) => e@,
                        None => "undefined"@,
                    },
                )
                &&& attr_id(resp.attributes@[2], "otc_id"@, new_id)
            }),
        },
{
    let new_id = config.counter_otc + 1;

    let position = match OtcPosition::from_create_otc_msg(
        env,
        msg,
        new_id,
        info.sender.clone(),
        valid_addrs,
    ) {
        Ok(p) => p,
        Err(e) => {
            return Err(e);
        },
    };
    match position.validate(valid_addrs) {
        Ok(_) => {},
        Err(e) => {
            return Err(e);
        },
    }

    let (msgs_deposit, remaining_coins) = match collect_otc_items(
        env,
        &position.offer,
        &info.sender,
        &info.funds,
    ) {
        Ok(p) => p,
        Err(e) => {
            return Err(e);
        },
    };

    let mut msgs_fee = match send_fee(env, &config.fee, &config.fee_collector, remaining_coins) {
        Ok(m) => m,
        Err(e) => {
            return Err(e);
        },
    };

    let executor_label = match &position.executor {
        Some(e) => e.clone(),
        None => "undefined".to_owned(),
    };

    config.counter_otc = new_id;

    let mut messages = msgs_deposit;
    messages.append(&mut msgs_fee);

    let mut attributes: Vec<crate::response::Attribute> = Vec::new();
    attributes.push(attr("action", AttrValue::Text("create_otc".to_owned())));
    attributes.push(attr("executor", AttrValue::Text(executor_label)));
    attributes.push(attr("otc_id", AttrValue::Id(new_id)));

    store.save(new_id, position);

    Ok(Response { messages, attributes })
}

/// Why an execute instruction is rejected, if it is: no such position, a
/// caller that differs from the designated executor, a position no longer
/// pending, or funds short of the ask's native items plus the fee.
pub open spec fn spec_execute_err(
    table: Seq<OtcPosition>,
    fee: Seq<crate::definitions::OtcItemInfo>,
    sender: String,
    funds: Seq<Coin>,
    id: u64,
) -> Option<ContractError> {
    match get_pos(table, id) {
        None => Some(ContractError::PositionNotFound { id }),
        Some(p) => {
            if p.executor matches Some(e) && e@ != sender@ {
                Some(ContractError::Unauthorized)
            } else if !(p.status is Pending) {
                Some(ContractError::ExecuteRequiresPending)
            } else {
                match spec_received_funds(infos_of(p.ask@), funds) {
                    Err(e) => Some(e),
                    Ok(remaining) => match spec_received_funds(fee, remaining) {
                        Err(e) => Some(e),
                        Ok(_) => None,
                    },
                }
            }
        },
    }
}

/// Deposits the ask bundle and starts settlement: binds the executor to the
/// caller if none was designated, verifies that the attached funds cover the
/// ask's native items plus the fee, moves the position into vesting, runs an
/// immediate first disbursement pass in both directions, and closes the
/// position at once if nothing is scheduled to vest.
///
/// Note that the full fee bundle is charged here a second time, deliberately:
/// a completed swap pays the fee once at creation and once at execution.
pub fn run_execute_otc(
    config: &Config,
    store: &mut PositionStore,
    env: &Env,
    info: &MessageInfo,
    msg: ExecuteOtcMsg,
) -> (r: ContractResponse)
    requires
        old(store).wf(),
        stored_execute_safe(old(store)@, msg.id, env.block_time),
    ensures
        final(store).wf(),
        match r {
            Err(e) => {
                &&& spec_execute_err(old(store)@, config.fee@, info.sender, info.funds@, msg.id)
                    == Some(e)
                &&& final(store)@ == old(store)@
            },
            Ok(resp) => ({
                let p0 = get_pos(old(store)@, msg.id)->Some_0;
                let now = env.block_time;
                let vesting = OtcPositionStatus::Vesting(now);
                let bound = if p0.executor is Some {
                    p0.executor
                } else {
                    Some(info.sender)
                };
                let new_offer = p0.offer@.map_values(
                    |it: OtcItem| spec_settled_item(it, vesting, now),
                );
                let new_ask = p0.ask@.map_values(|it: OtcItem| spec_settled_item(it, vesting, now));
                let closed = all_vested_claimed(new_ask) && all_vested_claimed(new_offer);
                &&& contains_id(old(store)@, msg.id)
                &&& spec_execute_err(old(store)@, config.fee@, info.sender, info.funds@, msg.id)
                    is None
                &&& (forall|i: u64|
                    #[trigger] contains_id(final(store)@, i) <==> contains_id(old(store)@, i))
                &&& (get_pos(final(store)@, msg.id) matches Some(p) && {
                    &&& p.id == msg.id
                    &&& p.owner == p0.owner
                    &&& p.executor == bound
                    &&& p.offer@ == new_offer
                    &&& p.ask@ == new_ask
                    &&& p.creation_time == p0.creation_time
                    &&& p.status == if closed {
                        OtcPositionStatus::Executed(now)
                    } else {
                        vesting
                    }
                })
                &&& (forall|i: u64|
                    i != msg.id ==> #[trigger] get_pos(final(store)@, i) == get_pos(
                        old(store)@,
                        i,
                    ))
                &&& resp.messages@ == spec_collect_msgs(p0.ask@, env.contract_address, info.sender)
                    + spec_send_full_msgs(config.fee@, config.fee_collector) + spec_settle_msgs(
                    p0.ask@,
                    vesting,
                    now,
                    p0.owner,
                ) + spec_settle_msgs(p0.offer@, vesting, now, bound->Some_0)
                &&& resp.attributes@.len() == (if closed {
                    5int
                } else {
                    2int
                })
                &&& attr_text(resp.attributes@[0], "action"@, "execute_otc"@)
                &&& attr_id(resp.attributes@[1], "otc_id"@, msg.id)
                &&& (closed ==> {
                    &&& attr_text(resp.attributes@[2], "after_action"@, "position_status_change"@)
                    &&& attr_text(resp.attributes@[3], "pre_status"@, "vesting"@)
                    &&& attr_text(resp.attributes@[4], "current_status"@, "executed"@)
                })
            }),
        },
        forall|i: u64|
            contains_id(old(store)@, i) && contains_id(final(store)@, i) ==> status_le(
                (#[trigger] get_pos(old(store)@, i))->Some_0.status,
                (#[trigger] get_pos(final(store)@, i))->Some_0.status,
            ),
{
    let position_ref = match store.load(msg.id) {
        Ok(p) => p,
        Err(e) => {
            return Err(e);
        },
    };
    let mut position = position_ref.clone();

    match position.active(env, &info.sender) {
        Ok(_) => {},
        Err(e) => {
            return Err(e);
        },
    }

    let (msgs_deposit, remaining_coins) = match collect_otc_items(
        env,
        &position.ask,
        &info.sender,
        &info.funds,
    ) {
        Ok(p) => p,
        Err(e) => {
            return Err(e);
        },
    };

    let mut msgs_fee = match send_fee(env, &config.fee, &config.fee_collector, remaining_coins) {
        Ok(m) => m,
        Err(e) => {
            return Err(e);
        },
    };

    let mut msgs_to_owner = match send_otc_items(
        env,
        &mut position.ask,
        &OtcPositionStatus::Vesting(env.block_time),
        &position.owner,
    ) {
        Ok(m) => m,
        Err(_) => {
            proof {
                assert(false);
            }
            vstd::pervasive::unreached()
        },
    };

    let executor = match &position.executor {
        Some(e) => e.clone(),
        None => {
            proof {
                assert(false);
            }
            vstd::pervasive::unreached()
        },
    };
    let mut msgs_to_executor = match send_otc_items(
        env,
        &mut position.offer,
        &OtcPositionStatus::Vesting(env.block_time),
        &executor,
    ) {
        Ok(m) => m,
        Err(_) => {
            proof {
                assert(false);
            }
            vstd::pervasive::unreached()
        },
    };

    let mut attrs_close = match after_action(store, env, &mut position) {
        Ok(a) => a,
        Err(_) => {
            proof {
                assert(false);
            }
            vstd::pervasive::unreached()
        },
    };

    let mut messages = msgs_deposit;
    messages.append(&mut msgs_fee);
    messages.append(&mut msgs_to_owner);
    messages.append(&mut msgs_to_executor);

    let mut attributes: Vec<crate::response::Attribute> = Vec::new();
    attributes.push(attr("action", AttrValue::Text("execute_otc".to_owned())));
    attributes.push(attr("otc_id", AttrValue::Id(msg.id)));
    attributes.append(&mut attrs_close);

    Ok(Response { messages, attributes })
}

/// Why a claim instruction is rejected, if it is: no such position, a caller
/// that is neither the owner nor the executor, a position that does not vest
/// although the claimed bundle carries schedules, or an empty computed
/// transfer set.
pub open spec fn spec_claim_err(
    table: Seq<OtcPosition>,
    sender: String,
    id: u64,
    now: u64,
) -> Option<ContractError> {
    match get_pos(table, id) {
        None => Some(ContractError::PositionNotFound { id }),
        Some(p) => {
            let is_owner = sender@ == p.owner@;
            let is_executor = p.executor matches Some(e) && e@ == sender@;
            if !is_owner && !is_executor {
                Some(ContractError::Unauthorized)
            } else {
                let bundle = if is_owner {
                    p.ask@
                } else {
                    p.offer@
                };
                if bundle_settle_err(bundle, p.status) {
                    Some(ContractError::StatusNotVesting)
                } else if spec_settle_msgs(bundle, p.status, now, sender).len() == 0 {
                    Some(ContractError::NothingToClaim)
                } else if !(p.status is Vesting) {
                    Some(ContractError::TryCloseRequiresVesting)
                } else {
                    None
                }
            }
        },
    }
}

/// Claims whatever has newly unlocked of the bundle owed to the caller: the
/// ask bundle for the owner, the offer bundle for the executor. A claim that
/// computes no transfer at all fails rather than succeeding as a no-op, and
/// mutates nothing. Runs the close check afterward.
pub fn run_claim_otc(
    store: &mut PositionStore,
    env: &Env,
    info: &MessageInfo,
    msg: ClaimOtcMsg,
) -> (r: ContractResponse)
    requires
        old(store).wf(),
        stored_claim_safe(old(store)@, msg.id, env.block_time),
    ensures
        final(store).wf(),
        match r {
            Err(e) => {
                &&& spec_claim_err(old(store)@, info.sender, msg.id, env.block_time) == Some(e)
                &&& final(store)@ == old(store)@
            },
            Ok(resp) => ({
                let p0 = get_pos(old(store)@, msg.id)->Some_0;
                let now = env.block_time;
                let is_owner = info.sender@ == p0.owner@;
                let new_offer = if is_owner {
                    p0.offer@
                } else {
                    p0.offer@.map_values(|it: OtcItem| spec_settled_item(it, p0.status, now))
                };
                let new_ask = if is_owner {
                    p0.ask@.map_values(|it: OtcItem| spec_settled_item(it, p0.status, now))
                } else {
                    p0.ask@
                };
                let closed = all_vested_claimed(new_ask) && all_vested_claimed(new_offer);
                &&& contains_id(old(store)@, msg.id)
                &&& spec_claim_err(old(store)@, info.sender, msg.id, env.block_time) is None
                &&& p0.status is Vesting
                &&& (is_owner || (p0.executor matches Some(e) && e@ == info.sender@))
                &&& (forall|i: u64|
                    #[trigger] contains_id(final(store)@, i) <==> contains_id(old(store)@, i))
                &&& (get_pos(final(store)@, msg.id) matches Some(p) && {
                    &&& p.id == msg.id
                    &&& p.owner == p0.owner
                    &&& p.executor == p0.executor
                    &&& p.offer@ == new_offer
                    &&& p.ask@ == new_ask
                    &&& p.creation_time == p0.creation_time
                    &&& p.status == if closed {
                        OtcPositionStatus::Executed(now)
                    } else {
                        p0.status
                    }
                    &&& forall|i: int|
                        0 <= i < p.ask@.len() ==> claimed_of(#[trigger] p.ask@[i]) >= claimed_of(
                            p0.ask@[i],
                        )
                    &&& forall|i: int|
                        0 <= i < p.offer@.len() ==> claimed_of(#[trigger] p.offer@[i])
                            >= claimed_of(p0.offer@[i])
                })
                &&& (forall|i: u64|
                    i != msg.id ==> #[trigger] get_pos(final(store)@, i) == get_pos(
                        old(store)@,
                        i,
                    ))
                &&& resp.messages@ == spec_settle_msgs(
                    if is_owner {
                        p0.ask@
                    } else {
                        p0.offer@
                    },
                    p0.status,
                    now,
                    info.sender,
                )
                &&& resp.messages@.len() > 0
                &&& resp.attributes@.len() == (if closed {
                    5int
                } else {
                    2int
                })
                &&& attr_text(resp.attributes@[0], "action"@, "claim"@)
                &&& attr_id(resp.attributes@[1], "id"@, msg.id)
                &&& (closed ==> {
                    &&& attr_text(resp.attributes@[2], "after_action"@, "position_status_change"@)
                    &&& attr_text(resp.attributes@[3], "pre_status"@, "vesting"@)
                    &&& attr_text(resp.attributes@[4], "current_status"@, "executed"@)
                })
            }),
        },
        forall|i: u64|
            contains_id(old(store)@, i) && contains_id(final(store)@, i) ==> status_le(
                (#[trigger] get_pos(old(store)@, i))->Some_0.status,
                (#[trigger] get_pos(final(store)@, i))->Some_0.status,
            ),
{
    let position_ref = match store.load(msg.id) {
        Ok(p) => p,
        Err(e) => {
            return Err(e);
        },
    };
    let mut position = position_ref.clone();

    let is_owner = info.sender.eq(&position.owner);
    let is_executor = match &position.executor {
        Some(e) => e.eq(&info.sender),
        None => false,
    };

    let status = position.status;
    let msgs = if is_owner {
        match send_otc_items(env, &mut position.ask, &status, &info.sender) {
            Ok(m) => m,
            Err(e) => {
                return Err(e);
            },
        }
    } else if is_executor {
        match send_otc_items(env, &mut position.offer, &status, &info.sender) {
            Ok(m) => m,
            Err(e) => {
                return Err(e);
            },
        }
    } else {
        return Err(ContractError::Unauthorized);
    };

    if msgs.is_empty() {
        return Err(ContractError::NothingToClaim);
    }

    let mut attrs_close = match after_action(store, env, &mut position) {
        Ok(a) => a,
        Err(e) => {
            return Err(e);
        },
    };

    let mut attributes: Vec<crate::response::Attribute> = Vec::new();
    attributes.push(attr("action", AttrValue::Text("claim".to_owned())));
    attributes.push(attr("id", AttrValue::Id(msg.id)));
    attributes.append(&mut attrs_close);

    Ok(Response { messages: msgs, attributes })
}

/// Why a cancel instruction is rejected, if it is: no such position, a caller
/// other than the owner, or a position that already left `Pending`.
pub open spec fn spec_cancel_err(table: Seq<OtcPosition>, sender: String, id: u64) -> Option<
    ContractError,
> {
    match get_pos(table, id) {
        None => Some(ContractError::PositionNotFound { id }),
        Some(p) => {
            if sender@ != p.owner@ {
                Some(ContractError::Unauthorized)
            } else if !(p.status is Pending) {
                Some(ContractError::CancelRequiresPending)
            } else {
                None
            }
        },
    }
}

/// Withdraws a still-pending position: only its owner may cancel, the full
/// offer bundle goes back to the owner, and the record is deleted. A position
/// that already left `Pending` cannot be cancelled and stays untouched.
pub fn run_cancel_otc(
    store: &mut PositionStore,
    env: &Env,
    info: &MessageInfo,
    msg: CancelOtcMsg,
) -> (r: ContractResponse)
    requires
        old(store).wf(),
    ensures
        final(store).wf(),
        match r {
            Err(e) => {
                &&& spec_cancel_err(old(store)@, info.sender, msg.id) == Some(e)
                &&& final(store)@ == old(store)@
            },
            Ok(resp) => ({
                let p0 = get_pos(old(store)@, msg.id)->Some_0;
                &&& contains_id(old(store)@, msg.id)
                &&& spec_cancel_err(old(store)@, info.sender, msg.id) is None
                &&& p0.status is Pending
                &&& info.sender@ == p0.owner@
                &&& (forall|i: u64|
                    #[trigger] contains_id(final(store)@, i) <==> contains_id(old(store)@, i) && i
                        != msg.id)
                &&& (forall|i: u64|
                    i != msg.id ==> #[trigger] get_pos(final(store)@, i) == get_pos(
                        old(store)@,
                        i,
                    ))
                &&& resp.messages@ == spec_send_full_msgs(infos_of(p0.offer@), p0.owner)
                &&& resp.attributes@.len() == 2
                &&& attr_text(resp.attributes@[0], "action"@, "cancel_otc"@)
                &&& attr_id(resp.attributes@[1], "id"@, msg.id)
            }),
        },
{
    let position_ref = match store.load(msg.id) {
        Ok(p) => p,
        Err(e) => {
            return Err(e);
        },
    };

    if !info.sender.eq(&position_ref.owner) {
        return Err(ContractError::Unauthorized);
    }

    if !position_ref.status.is_in_pending() {
        return Err(ContractError::CancelRequiresPending);
    }

    let msgs_to_owner = match cancel_otc(env, position_ref) {
        Ok(m) => m,
        Err(_) => {
            proof {
                assert(false);
            }
            vstd::pervasive::unreached()
        },
    };

    store.remove(msg.id);

    let mut attributes: Vec<crate::response::Attribute> = Vec::new();
    attributes.push(attr("action", AttrValue::Text("cancel_otc".to_owned())));
    attributes.push(attr("id", AttrValue::Id(msg.id)));

    Ok(Response { messages: msgs_to_owner, attributes })
}

} // verus!

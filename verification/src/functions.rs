//! Settlement orchestration: verifying attached funds, collecting deposits,
//! disbursing claimable quantities, forwarding fees, returning cancelled
//! offers, and running the close check after each settlement action.

use vstd::prelude::*;

verus! {

use crate::definitions::{
    all_vested_claimed, claimed_of, item_claim_safe, lemma_settled_claims, pos_matches,
    spec_sendable_err, spec_settle_amount, spec_settled_item, status_le, Coin, Env, OtcItem,
    OtcItemInfo, OtcPosition, TransferMsg,
};
use crate::definitions::OtcPositionStatus;
use crate::response::{attr, attr_text, AttrValue, Attribute, ContractError};
use crate::state::PositionStore;
use crate::msgs::QueryPositionsFilterOrder;
use crate::state::{contains_id, get_pos, index_key, key_matches, views_of, OtcPositionIndexer};

/// The amount of the first attached coin of the given denomination, if any.
pub open spec fn spec_find_coin(funds: Seq<Coin>, denom: Seq<char>) -> Option<u128>
    decreases funds.len(),
{
    if funds.len() == 0 {
        None
    } else if funds[0].denom@ == denom {
        Some(funds[0].amount)
    } else {
        spec_find_coin(funds.drop_first(), denom)
    }
}

proof fn lemma_find_coin_skip(funds: Seq<Coin>, denom: Seq<char>, i: int)
    requires
        0 <= i <= funds.len(),
        forall|j: int| 0 <= j < i ==> funds[j].denom@ != denom,
    ensures
        spec_find_coin(funds, denom) == spec_find_coin(
            funds.subrange(i, funds.len() as int),
            denom,
        ),
    decreases i,
{
    if i == 0 {
        assert(funds.subrange(0, funds.len() as int) =~= funds);
    } else {
        lemma_find_coin_skip(funds, denom, i - 1);
        let s = funds.subrange(i - 1, funds.len() as int);
        assert(s[0] == funds[i - 1]);
        assert(s.drop_first() =~= funds.subrange(i, funds.len() as int));
    }
}

/// Linear scan deciding [`spec_find_coin`].
#[verifier::loop_isolation(false)]
fn find_coin(funds: &Vec<Coin>, denom: &String) -> (r: Option<u128>)
    ensures
        r == spec_find_coin(funds@, denom@),
{
    let mut k: usize = 0;
    while k < funds.len()
        invariant
            0 <= k <= funds@.len(),
            forall|j: int| 0 <= j < k ==> funds@[j].denom@ != denom@,
        decreases funds@.len() - k,
    {
        if funds[k].denom.eq(denom) {
            proof {
                lemma_find_coin_skip(funds@, denom@, k as int);
            }
            return Some(funds[k].amount);
        }
        k = k + 1;
    }
    proof {
        lemma_find_coin_skip(funds@, denom@, funds@.len() as int);
    }
    None
}

/// The descriptors of a bundle, in order.
pub open spec fn infos_of(items: Seq<OtcItem>) -> Seq<OtcItemInfo> {
    items.map_values(|it: OtcItem| it.item_info)
}

/// The exact outcome of verifying attached funds against the native-coin
/// requirements of a bundle: the first missing or short coin rejects the
/// call; otherwise, per native requirement and in order, the surplus of the
/// attached coin over the requirement. Non-native items take no part.
pub open spec fn spec_received_funds(items: Seq<OtcItemInfo>, funds: Seq<Coin>) -> Result<
    Seq<Coin>,
    ContractError,
>
    decreases items.len(),
{
    if items.len() == 0 {
        Ok(Seq::<Coin>::empty())
    } else {
        match items[0] {
            OtcItemInfo::Token { denom, amount } => match spec_find_coin(funds, denom@) {
                None => Err(ContractError::CoinNotReceived { denom }),
                Some(available) => if amount > available {
                    Err(ContractError::CoinAmountTooLow { denom })
                } else {
                    match spec_received_funds(items.drop_first(), funds) {
                        Err(e) => Err(e),
                        Ok(coins) => Ok(
                            seq![Coin { denom, amount: (available - amount) as u128 }] + coins,
                        ),
                    }
                },
            },
            _ => spec_received_funds(items.drop_first(), funds),
        }
    }
}

/// Splitting a bundle splits its funds verification: a rejection in either
/// part rejects the whole, and the surpluses concatenate.
proof fn lemma_received_funds_concat(a: Seq<OtcItemInfo>, b: Seq<OtcItemInfo>, funds: Seq<Coin>)
    ensures
        spec_received_funds(a + b, funds) == (match spec_received_funds(a, funds) {
            Err(e) => Err(e),
            Ok(ca) => match spec_received_funds(b, funds) {
                Err(e) => Err::<Seq<Coin>, ContractError>(e),
                Ok(cb) => Ok(ca + cb),
            },
        }),
    decreases a.len(),
{
    if a.len() == 0 {
        assert(a + b =~= b);
        match spec_received_funds(b, funds) {
            Ok(cb) => {
                assert(Seq::<Coin>::empty() + cb =~= cb);
            },
            Err(_) => {},
        }
    } else {
        assert((a + b)[0] == a[0]);
        assert((a + b).drop_first() =~= a.drop_first() + b);
        lemma_received_funds_concat(a.drop_first(), b, funds);
        match a[0] {
            OtcItemInfo::Token { denom, amount } => {
                match spec_find_coin(funds, denom@) {
                    None => {},
                    Some(available) => {
                        if amount <= available {
                            let c = Coin { denom, amount: (available - amount) as u128 };
                            match spec_received_funds(a.drop_first(), funds) {
                                Err(_) => {},
                                Ok(ca2) => {
                                    match spec_received_funds(b, funds) {
                                        Err(_) => {},
                                        Ok(cb) => {
                                            assert(seq![c] + (ca2 + cb) =~= (seq![c] + ca2) + cb);
                                        },
                                    }
                                },
                            }
                        }
                    },
                }
            },
            _ => {},
        }
    }
}

/// Verifies that the attached coins include, per native item of the bundle,
/// at least the required amount; returns the surpluses, in bundle order.
///
/// Each requirement is checked against the attached coins as a whole; a
/// rejection reports the first denomination that is missing or short.
#[verifier::loop_isolation(false)]
pub fn assert_received_funds(items: &Vec<OtcItemInfo>, funds: &Vec<Coin>) -> (r: Result<
    Vec<Coin>,
    ContractError,
>)
    ensures
        match r {
            Ok(coins) => spec_received_funds(items@, funds@) matches Ok(sc) && coins@ == sc,
            Err(e) => spec_received_funds(items@, funds@) == Err::<Seq<Coin>, ContractError>(e),
        },
{
    let mut coins: Vec<Coin> = Vec::new();
    let mut k: usize = 0;
    while k < items.len()
        invariant
            0 <= k <= items@.len(),
            spec_received_funds(items@.subrange(0, k as int), funds@) == Ok::<
                Seq<Coin>,
                ContractError,
            >(coins@),
        decreases items@.len() - k,
    {
        let ghost prefix = items@.subrange(0, k as int);
        let ghost suffix = items@.subrange(k as int, items@.len() as int);
        proof {
            assert(prefix + suffix =~= items@);
            assert(suffix[0] == items@[k as int]);
            assert(suffix.drop_first() =~= items@.subrange(k as int + 1, items@.len() as int));
            lemma_received_funds_concat(prefix, suffix, funds@);
        }
        match &items[k] {
            OtcItemInfo::Token { denom, amount } => {
                let available = match find_coin(funds, denom) {
                    Some(a) => a,
                    None => {
                        return Err(ContractError::CoinNotReceived { denom: denom.clone() });
                    },
                };
                if *amount > available {
                    return Err(ContractError::CoinAmountTooLow { denom: denom.clone() });
                }
                let ghost coins0 = coins@;
                let ghost coin = Coin { denom: *denom, amount: (available - *amount) as u128 };
                coins.push(Coin { denom: denom.clone(), amount: available - *amount });
                proof {
                    assert(items@[k as int] == (OtcItemInfo::Token {
                        denom: *denom,
                        amount: *amount,
                    }));
                    assert(items@.subrange(0, k as int + 1) =~= prefix + seq![items@[k as int]]);
                    lemma_received_funds_concat(prefix, seq![items@[k as int]], funds@);
                    let single = seq![items@[k as int]];
                    assert(single.drop_first() =~= Seq::<OtcItemInfo>::empty());
                    assert(spec_received_funds(Seq::<OtcItemInfo>::empty(), funds@) == Ok::<
                        Seq<Coin>,
                        ContractError,
                    >(Seq::<Coin>::empty()));
                    assert(spec_received_funds(single, funds@) == Ok::<Seq<Coin>, ContractError>(
                        seq![coin] + Seq::<Coin>::empty(),
                    ));
                    assert(coins@ =~= coins0 + (seq![coin] + Seq::<Coin>::empty()));
                }
            },
            _ => {
                proof {
                    assert(items@.subrange(0, k as int + 1) =~= prefix + seq![items@[k as int]]);
                    lemma_received_funds_concat(prefix, seq![items@[k as int]], funds@);
                    let single = seq![items@[k as int]];
                    assert(single.drop_first() =~= Seq::<OtcItemInfo>::empty());
                    assert(spec_received_funds(Seq::<OtcItemInfo>::empty(), funds@) == Ok::<
                        Seq<Coin>,
                        ContractError,
                    >(Seq::<Coin>::empty()));
                    assert(spec_received_funds(single, funds@) == Ok::<Seq<Coin>, ContractError>(
                        Seq::<Coin>::empty(),
                    ));
                    assert(coins@ + Seq::<Coin>::empty() =~= coins@);
                }
            },
        }
        k = k + 1;
    }
    proof {
        assert(items@.subrange(0, items@.len() as int) =~= items@);
    }
    Ok(coins)
}

/// The transfer that moves `amount` of an item out of the escrow to `to`.
pub open spec fn spec_send_to(info: OtcItemInfo, to: String, amount: u128) -> TransferMsg {
    match info {
        OtcItemInfo::Token { denom, .. } => TransferMsg::Bank { to_address: to, denom, amount },
        OtcItemInfo::Cw20 { contract, .. } => TransferMsg::Cw20Transfer {
            contract,
            recipient: to,
            amount,
        },
        OtcItemInfo::Cw721 { contract, token_id } => TransferMsg::Cw721TransferNft {
            contract,
            recipient: to,
            token_id,
        },
    }
}

/// The transfers sending each descriptor's full quantity from the escrow to
/// `to`, in order.
pub open spec fn spec_send_full_msgs(infos: Seq<OtcItemInfo>, to: String) -> Seq<TransferMsg> {
    infos.map_values(|info: OtcItemInfo| spec_send_to(info, to, info.spec_amount()))
}

/// Builds the transfers sending each descriptor's full quantity from the
/// escrow to `to`.
#[verifier::loop_isolation(false)]
pub fn build_send_otc_info_items(env: &Env, items_info: &Vec<OtcItemInfo>, to: &String) -> (r:
    Result<Vec<TransferMsg>, ContractError>)
    ensures
        r matches Ok(m) && m@ == spec_send_full_msgs(items_info@, *to),
{
    let mut msgs: Vec<TransferMsg> = Vec::new();
    let mut k: usize = 0;
    while k < items_info.len()
        invariant
            0 <= k <= items_info@.len(),
            msgs@.len() == k,
            forall|j: int|
                0 <= j < k ==> msgs@[j] == spec_send_to(
                    #[trigger] items_info@[j],
                    *to,
                    items_info@[j].spec_amount(),
                ),
        decreases items_info@.len() - k,
    {
        let msg = match items_info[k].build_send_msg(env, &env.contract_address, to, None) {
            Ok(m) => m,
            Err(_) => {
                proof {
                    assert(false);
                }
                vstd::pervasive::unreached()
            },
        };
        msgs.push(msg);
        k = k + 1;
    }
    proof {
        assert(msgs@ =~= spec_send_full_msgs(items_info@, *to));
    }
    Ok(msgs)
}

/// The transfer that pulls a deposited item from `sender` into the escrow's
/// custody; native items move with the attached coins and need none.
pub open spec fn spec_deposit_msg(info: OtcItemInfo, contract: String, sender: String) -> TransferMsg {
    match info {
        OtcItemInfo::Cw20 { contract: token, amount } => if contract@ == sender@ {
            TransferMsg::Cw20Transfer { contract: token, recipient: contract, amount }
        } else {
            TransferMsg::Cw20TransferFrom {
                contract: token,
                owner: sender,
                recipient: contract,
                amount,
            }
        },
        OtcItemInfo::Cw721 { contract: token, token_id } => TransferMsg::Cw721TransferNft {
            contract: token,
            recipient: contract,
            token_id,
        },
        OtcItemInfo::Token { denom, amount } => TransferMsg::Bank {
            to_address: contract,
            denom,
            amount,
        },
    }
}

/// The deposit transfers a bundle needs, in order: one per token item,
/// none per native item.
pub open spec fn spec_collect_msgs(
    items: Seq<OtcItem>,
    contract: String,
    sender: String,
) -> Seq<TransferMsg>
    decreases items.len(),
{
    if items.len() == 0 {
        Seq::<TransferMsg>::empty()
    } else {
        let head = match items[0].item_info {
            OtcItemInfo::Token { .. } => Seq::<TransferMsg>::empty(),
            _ => seq![spec_deposit_msg(items[0].item_info, contract, sender)],
        };
        head + spec_collect_msgs(items.drop_first(), contract, sender)
    }
}

/// Splitting a bundle splits its deposit transfers.
proof fn lemma_collect_msgs_concat(
    a: Seq<OtcItem>,
    b: Seq<OtcItem>,
    contract: String,
    sender: String,
)
    ensures
        spec_collect_msgs(a + b, contract, sender) == spec_collect_msgs(a, contract, sender)
            + spec_collect_msgs(b, contract, sender),
    decreases a.len(),
{
    if a.len() == 0 {
        assert(a + b =~= b);
        assert(Seq::<TransferMsg>::empty() + spec_collect_msgs(b, contract, sender)
            =~= spec_collect_msgs(b, contract, sender));
    } else {
        assert((a + b)[0] == a[0]);
        assert((a + b).drop_first() =~= a.drop_first() + b);
        lemma_collect_msgs_concat(a.drop_first(), b, contract, sender);
        let head = match a[0].item_info {
            OtcItemInfo::Token { .. } => Seq::<TransferMsg>::empty(),
            _ => seq![spec_deposit_msg(a[0].item_info, contract, sender)],
        };
        assert(head + (spec_collect_msgs(a.drop_first(), contract, sender) + spec_collect_msgs(
            b,
            contract,
            sender,
        )) =~= (head + spec_collect_msgs(a.drop_first(), contract, sender)) + spec_collect_msgs(
            b,
            contract,
            sender,
        ));
    }
}

/// Verifies the attached funds against the bundle and builds the deposit
/// transfers that pull its token items from `sender` into the escrow.
/// Returns those transfers and the surplus coins left after the native
/// requirements.
#[verifier::loop_isolation(false)]
pub fn collect_otc_items(env: &Env, items: &Vec<OtcItem>, sender: &String, funds: &Vec<Coin>) -> (r:
    Result<(Vec<TransferMsg>, Vec<Coin>), ContractError>)
    ensures
        match r {
            Ok(p) => {
                &&& spec_received_funds(infos_of(items@), funds@) matches Ok(sc) && p.1@ == sc
                &&& p.0@ == spec_collect_msgs(items@, env.contract_address, *sender)
            },
            Err(e) => spec_received_funds(infos_of(items@), funds@) == Err::<
                Seq<Coin>,
                ContractError,
            >(e),
        },
{
    let mut infos: Vec<OtcItemInfo> = Vec::new();
    let mut k: usize = 0;
    while k < items.len()
        invariant
            0 <= k <= items@.len(),
            infos@.len() == k,
            forall|j: int| 0 <= j < k ==> infos@[j] == #[trigger] items@[j].item_info,
        decreases items@.len() - k,
    {
        infos.push(items[k].item_info.clone());
        k = k + 1;
    }
    proof {
        assert(infos@ =~= infos_of(items@));
    }
    let coins = match assert_received_funds(&infos, funds) {
        Ok(c) => c,
        Err(e) => {
            return Err(e);
        },
    };

    let mut msgs: Vec<TransferMsg> = Vec::new();
    let mut k: usize = 0;
    while k < items.len()
        invariant
            0 <= k <= items@.len(),
            msgs@ == spec_collect_msgs(
                items@.subrange(0, k as int),
                env.contract_address,
                *sender,
            ),
        decreases items@.len() - k,
    {
        let ghost prefix = items@.subrange(0, k as int);
        let ghost single = seq![items@[k as int]];
        proof {
            assert(items@.subrange(0, k as int + 1) =~= prefix + single);
            lemma_collect_msgs_concat(prefix, single, env.contract_address, *sender);
            assert(single.drop_first() =~= Seq::<OtcItem>::empty());
            assert(spec_collect_msgs(Seq::<OtcItem>::empty(), env.contract_address, *sender)
                == Seq::<TransferMsg>::empty());
            assert(spec_collect_msgs(single, env.contract_address, *sender) == (match single[0].item_info {
                OtcItemInfo::Token { .. } => Seq::<TransferMsg>::empty(),
                _ => seq![spec_deposit_msg(single[0].item_info, env.contract_address, *sender)],
            }) + Seq::<TransferMsg>::empty());
        }
        let ghost msgs0 = msgs@;
        match &items[k].item_info {
            OtcItemInfo::Token { .. } => {
                proof {
                    assert(msgs@ =~= msgs0 + Seq::<TransferMsg>::empty());
                }
            },
            _ => {
                let msg = match items[k].item_info.build_send_msg(
                    env,
                    sender,
                    &env.contract_address,
                    None,
                ) {
                    Ok(m) => m,
                    Err(_) => {
                        proof {
                            assert(false);
                        }
                        vstd::pervasive::unreached()
                    },
                };
                msgs.push(msg);
                proof {
                    assert(msg == spec_deposit_msg(
                        items@[k as int].item_info,
                        env.contract_address,
                        *sender,
                    ));
                    assert(msgs@ =~= msgs0 + seq![
                        spec_deposit_msg(items@[k as int].item_info, env.contract_address, *sender),
                    ]);
                }
            },
        }
        k = k + 1;
    }
    proof {
        assert(items@.subrange(0, items@.len() as int) =~= items@);
    }
    Ok((msgs, coins))
}

/// Some item of the bundle carries a schedule although the position does not
/// vest: settling it is an error.
pub open spec fn bundle_settle_err(items: Seq<OtcItem>, status: OtcPositionStatus) -> bool {
    exists|i: int| 0 <= i < items.len() && spec_sendable_err(#[trigger] items[i], status)
}

/// The transfers a settlement pass over a bundle produces, in order: one per
/// item whose claimable increment is positive.
pub open spec fn spec_settle_msgs(
    items: Seq<OtcItem>,
    status: OtcPositionStatus,
    now: u64,
    to: String,
) -> Seq<TransferMsg>
    decreases items.len(),
{
    if items.len() == 0 {
        Seq::<TransferMsg>::empty()
    } else {
        let amount = spec_settle_amount(items[0], status, now);
        let head = if amount > 0 {
            seq![spec_send_to(items[0].item_info, to, amount)]
        } else {
            Seq::<TransferMsg>::empty()
        };
        head + spec_settle_msgs(items.drop_first(), status, now, to)
    }
}

/// Splitting a bundle splits its settlement transfers.
proof fn lemma_settle_msgs_concat(
    a: Seq<OtcItem>,
    b: Seq<OtcItem>,
    status: OtcPositionStatus,
    now: u64,
    to: String,
)
    ensures
        spec_settle_msgs(a + b, status, now, to) == spec_settle_msgs(a, status, now, to)
            + spec_settle_msgs(b, status, now, to),
    decreases a.len(),
{
    if a.len() == 0 {
        assert(a + b =~= b);
        assert(Seq::<TransferMsg>::empty() + spec_settle_msgs(b, status, now, to)
            =~= spec_settle_msgs(b, status, now, to));
    } else {
        assert((a + b)[0] == a[0]);
        assert((a + b).drop_first() =~= a.drop_first() + b);
        lemma_settle_msgs_concat(a.drop_first(), b, status, now, to);
        let amount = spec_settle_amount(a[0], status, now);
        let head = if amount > 0 {
            seq![spec_send_to(a[0].item_info, to, amount)]
        } else {
            Seq::<TransferMsg>::empty()
        };
        assert(head + (spec_settle_msgs(a.drop_first(), status, now, to) + spec_settle_msgs(
            b,
            status,
            now,
            to,
        )) =~= (head + spec_settle_msgs(a.drop_first(), status, now, to)) + spec_settle_msgs(
            b,
            status,
            now,
            to,
        ));
    }
}

/// Runs the vesting calculator over a bundle, updating each item's claimed
/// amount, and builds the transfers disbursing the claimable increments to
/// `to`. Per item, claimed amounts only grow.
#[verifier::loop_isolation(false)]
pub fn send_otc_items(
    env: &Env,
    items: &mut Vec<OtcItem>,
    position_status: &OtcPositionStatus,
    to: &String,
) -> (r: Result<Vec<TransferMsg>, ContractError>)
    requires
        forall|i: int|
            0 <= i < old(items)@.len() ==> item_claim_safe(
                #[trigger] old(items)@[i],
                *position_status,
                env.block_time,
            ),
    ensures
        match r {
            Ok(m) => {
                &&& !bundle_settle_err(old(items)@, *position_status)
                &&& m@ == spec_settle_msgs(
                    old(items)@,
                    *position_status,
                    env.block_time,
                    *to,
                )
                &&& final(items)@ == old(items)@.map_values(
                    |it: OtcItem| spec_settled_item(it, *position_status, env.block_time),
                )
            },
            Err(e) => {
                &&& bundle_settle_err(old(items)@, *position_status)
                &&& e == ContractError::StatusNotVesting
                &&& final(items)@ == old(items)@
            },
        },
        final(items)@.len() == old(items)@.len(),
        forall|i: int|
            0 <= i < old(items)@.len() ==> claimed_of(#[trigger] final(items)@[i]) >= claimed_of(
                old(items)@[i],
            ),
{
    let ghost orig = items@;
    let mut msgs: Vec<TransferMsg> = Vec::new();
    let mut k: usize = 0;
    while k < items.len()
        invariant
            0 <= k <= orig.len(),
            items@.len() == orig.len(),
            forall|j: int| k <= j < orig.len() ==> items@[j] == orig[j],
            forall|j: int|
                0 <= j < k ==> items@[j] == spec_settled_item(
                    #[trigger] orig[j],
                    *position_status,
                    env.block_time,
                ),
            forall|j: int| 0 <= j < k ==> !spec_sendable_err(#[trigger] orig[j], *position_status),
            msgs@ == spec_settle_msgs(
                orig.subrange(0, k as int),
                *position_status,
                env.block_time,
                *to,
            ),
        decreases orig.len() - k,
    {
        let ghost prefix = orig.subrange(0, k as int);
        let ghost single = seq![orig[k as int]];
        proof {
            assert(orig.subrange(0, k as int + 1) =~= prefix + single);
            lemma_settle_msgs_concat(prefix, single, *position_status, env.block_time, *to);
            assert(single.drop_first() =~= Seq::<OtcItem>::empty());
            assert(spec_settle_msgs(Seq::<OtcItem>::empty(), *position_status, env.block_time, *to)
                == Seq::<TransferMsg>::empty());
            assert(spec_settle_msgs(single, *position_status, env.block_time, *to) == ({
                let amount = spec_settle_amount(single[0], *position_status, env.block_time);
                if amount > 0 {
                    seq![spec_send_to(single[0].item_info, *to, amount)]
                } else {
                    Seq::<TransferMsg>::empty()
                }
            }) + Seq::<TransferMsg>::empty());
        }
        let amount = match items[k].sendable_amount_and_update_claimed_amount(
            env,
            position_status,
        ) {
            Ok(a) => a,
            Err(e) => {
                proof {
                    assert(spec_sendable_err(orig[k as int], *position_status));
                    assert forall|j: int| 0 <= j < orig.len() implies items@[j] == orig[j] by {
                        if j < k {
                            assert(!spec_sendable_err(orig[j], *position_status));
                            assert(orig[j].vesting_info is None);
                        }
                    }
                    assert(items@ =~= orig);
                }
                return Err(e);
            },
        };
        let ghost msgs0 = msgs@;
        if amount > 0 {
            let msg = match items[k].item_info.build_send_msg(
                env,
                &env.contract_address,
                to,
                Some(amount),
            ) {
                Ok(m) => m,
                Err(_) => {
                    proof {
                        assert(false);
                    }
                    vstd::pervasive::unreached()
                },
            };
            msgs.push(msg);
            proof {
                assert(items@[k as int].item_info == orig[k as int].item_info);
                assert(msg == spec_send_to(orig[k as int].item_info, *to, amount));
                assert(msgs@ =~= msgs0 + seq![spec_send_to(orig[k as int].item_info, *to, amount)]);
            }
        } else {
            proof {
                assert(msgs@ =~= msgs0 + Seq::<TransferMsg>::empty());
            }
        }
        k = k + 1;
    }
    proof {
        assert(orig.subrange(0, orig.len() as int) =~= orig);
        assert(items@ =~= orig.map_values(
            |it: OtcItem| spec_settled_item(it, *position_status, env.block_time),
        ));
        assert(!bundle_settle_err(orig, *position_status));
        assert forall|i: int| 0 <= i < orig.len() implies claimed_of(#[trigger] items@[i])
            >= claimed_of(orig[i]) by {
            assert(item_claim_safe(orig[i], *position_status, env.block_time));
            lemma_settled_claims(orig[i], *position_status, env.block_time);
            assert(items@[i] == spec_settled_item(orig[i], *position_status, env.block_time));
        }
    }
    Ok(msgs)
}

/// Verifies that the (surplus) coins cover the fee bundle's native items and
/// builds the transfers forwarding the full fee bundle to the fee collector.
pub fn send_fee(
    env: &Env,
    items_info: &Vec<OtcItemInfo>,
    fee_collector: &String,
    funds: Vec<Coin>,
) -> (r: Result<Vec<TransferMsg>, ContractError>)
    ensures
        match r {
            Ok(m) => {
                &&& spec_received_funds(items_info@, funds@) is Ok
                &&& m@ == spec_send_full_msgs(items_info@, *fee_collector)
            },
            Err(e) => spec_received_funds(items_info@, funds@) == Err::<Seq<Coin>, ContractError>(
                e,
            ),
        },
{
    match assert_received_funds(items_info, &funds) {
        Ok(_) => {},
        Err(e) => {
            return Err(e);
        },
    }
    build_send_otc_info_items(env, items_info, fee_collector)
}

/// The transfers a cancellation produces: the full offer bundle back to the
/// position owner.
pub fn cancel_otc(env: &Env, position: &OtcPosition) -> (r: Result<Vec<TransferMsg>, ContractError>)
    ensures
        r matches Ok(m) && m@ == spec_send_full_msgs(infos_of(position.offer@), position.owner),
{
    let mut infos: Vec<OtcItemInfo> = Vec::new();
    let mut k: usize = 0;
    while k < position.offer.len()
        invariant
            0 <= k <= position.offer@.len(),
            infos@.len() == k,
            forall|j: int| 0 <= j < k ==> infos@[j] == #[trigger] position.offer@[j].item_info,
        decreases position.offer@.len() - k,
    {
        infos.push(position.offer[k].item_info.clone());
        k = k + 1;
    }
    proof {
        assert(infos@ =~= infos_of(position.offer@));
    }
    build_send_otc_info_items(env, &infos, &position.owner)
}

/// Runs the close check after a settlement action and persists the position;
/// emits a status-change attribute trail when the position closed.
pub fn after_action(store: &mut PositionStore, env: &Env, position: &mut OtcPosition) -> (r: Result<
    Vec<Attribute>,
    ContractError,
>)
    requires
        old(store).wf(),
    ensures
        final(store).wf(),
        status_le(old(position).status, final(position).status),
        !(old(position).status is Vesting) ==> ({
            &&& r == Err::<Vec<Attribute>, ContractError>(ContractError::TryCloseRequiresVesting)
            &&& final(store)@ == old(store)@
            &&& *final(position) == *old(position)
        }),
        old(position).status is Vesting ==> ({
            let closed = all_vested_claimed(old(position).ask@) && all_vested_claimed(
                old(position).offer@,
            );
            &&& final(position).id == old(position).id
            &&& final(position).owner == old(position).owner
            &&& final(position).executor == old(position).executor
            &&& final(position).offer == old(position).offer
            &&& final(position).ask == old(position).ask
            &&& final(position).creation_time == old(position).creation_time
            &&& final(position).status == if closed {
                OtcPositionStatus::Executed(env.block_time)
            } else {
                old(position).status
            }
            &&& (forall|i: u64|
                #[trigger] contains_id(final(store)@, i) <==> contains_id(old(store)@, i) || i
                    == old(position).id)
            &&& (get_pos(final(store)@, old(position).id) matches Some(p) && pos_matches(
                p,
                *final(position),
            ))
            &&& (forall|i: u64|
                i != old(position).id ==> #[trigger] get_pos(final(store)@, i) == get_pos(
                    old(store)@,
                    i,
                ))
            &&& r matches Ok(attrs) && if closed {
                &&& attrs@.len() == 3
                &&& attr_text(attrs@[0], "after_action"@, "position_status_change"@)
                &&& attr_text(attrs@[1], "pre_status"@, "vesting"@)
                &&& attr_text(attrs@[2], "current_status"@, "executed"@)
            } else {
                attrs@.len() == 0
            }
        }),
{
    let position_pre = position.status.as_string_ref();

    match position.try_close(env) {
        Err(e) => {
            return Err(e);
        },
        Ok(_) => {},
    }

    let mut attributes: Vec<Attribute> = Vec::new();

    match position.status {
        OtcPositionStatus::Pending => Err(ContractError::PositionNotActive),
        _ => {
            store.save(position.id, position.clone());
            let position_status_after = position.status.as_string_ref();

            proof {
                reveal_strlit("vesting");
                reveal_strlit("executed");
                assert("vesting"@.len() == 7);
                assert("executed"@.len() == 8);
            }
            if !position_pre.eq(&position_status_after) {
                attributes.push(
                    attr("after_action", AttrValue::Text("position_status_change".to_owned())),
                );
                attributes.push(attr("pre_status", AttrValue::Text(position_pre)));
                attributes.push(attr("current_status", AttrValue::Text(position_status_after)));
            }
            Ok(attributes)
        },
    }
}

/// The default page size of an enumeration, used when the caller names none.
pub const DEFAULT_LIMIT: u32 = 10;

/// The hard cap on an enumeration's page size.
pub const MAX_LIMIT: u32 = 30;

/// The page size an enumeration actually uses: the requested size, defaulted
/// and clamped to the cap.
pub open spec fn spec_limit(limit: Option<u32>) -> int {
    let l = match limit {
        Some(l) => l,
        None => DEFAULT_LIMIT,
    };
    if l > MAX_LIMIT {
        MAX_LIMIT as int
    } else {
        l as int
    }
}

/// Whether a position lies strictly past the pagination cursor in the scan
/// direction.
pub open spec fn spec_after_cursor(p: OtcPosition, cursor: Option<u64>, descending: bool) -> bool {
    match cursor {
        Some(c) => if descending {
            p.id < c
        } else {
            p.id > c
        },
        None => true,
    }
}

/// Whether a scan keeps a position: it files under the selected index key (if
/// an index was selected) and lies past the cursor.
pub open spec fn spec_scan_pred(
    p: OtcPosition,
    sel: Option<(OtcPositionIndexer, Seq<Seq<char>>)>,
    cursor: Option<u64>,
    descending: bool,
) -> bool {
    &&& (sel matches Some(s) ==> index_key(p, s.0) == s.1)
    &&& spec_after_cursor(p, cursor, descending)
}

/// The first `limit` entries of a sequence, or all of it if shorter.
pub open spec fn take_limit(s: Seq<OtcPosition>, limit: int) -> Seq<OtcPosition> {
    if limit <= s.len() {
        s.take(limit)
    } else {
        s
    }
}

/// What an enumeration returns: the table in scan order, filtered by index
/// key and cursor, truncated to the page size.
pub open spec fn spec_scan(
    table: Seq<OtcPosition>,
    sel: Option<(OtcPositionIndexer, Seq<Seq<char>>)>,
    cursor: Option<u64>,
    descending: bool,
    limit: int,
) -> Seq<OtcPosition> {
    let ordered = if descending {
        table.reverse()
    } else {
        table
    };
    take_limit(ordered.filter(|p: OtcPosition| spec_scan_pred(p, sel, cursor, descending)), limit)
}

/// The positions a sequence of references points at.
pub open spec fn derefs(s: Seq<&OtcPosition>) -> Seq<OtcPosition> {
    s.map_values(|p: &OtcPosition| *p)
}

/// The selection a scan argument stands for.
pub open spec fn sel_view(sel: Option<(OtcPositionIndexer, &Vec<String>)>) -> Option<
    (OtcPositionIndexer, Seq<Seq<char>>),
> {
    match sel {
        Some(s) => Some((s.0, views_of(s.1@))),
        None => None,
    }
}

/// Walks the table in scan order, keeping the positions that file under the
/// selected key and lie past the cursor, up to `limit` of them.
#[verifier::loop_isolation(false)]
fn scan_positions<'a>(
    store: &'a PositionStore,
    sel: Option<(OtcPositionIndexer, &Vec<String>)>,
    descending: bool,
    start_after: Option<u64>,
    limit: u32,
) -> (r: Vec<&'a OtcPosition>)
    ensures
        derefs(r@) == spec_scan(store@, sel_view(sel), start_after, descending, limit as int),
{
    let ghost ordered = if descending {
        store@.reverse()
    } else {
        store@
    };
    let ghost pred = |p: OtcPosition| spec_scan_pred(p, sel_view(sel), start_after, descending);
    let n = store.count();
    let mut r: Vec<&'a OtcPosition> = Vec::new();
    let mut k: usize = 0;
    proof {
        reveal_with_fuel(Seq::<OtcPosition>::filter, 3);
        assert(ordered.subrange(0, 0) =~= Seq::<OtcPosition>::empty());
        assert(Seq::<OtcPosition>::empty().filter(pred) =~= Seq::<OtcPosition>::empty());
        assert(derefs(r@) =~= Seq::<OtcPosition>::empty());
    }
    while k < n
        invariant
            0 <= k <= n,
            n == store@.len(),
            ordered.len() == n,
            r@.len() <= limit,
            derefs(r@) == take_limit(ordered.subrange(0, k as int).filter(pred), limit as int),
        decreases n - k,
    {
        let i = if descending {
            n - 1 - k
        } else {
            k
        };
        let p = store.at(i);
        proof {
            assert(ordered[k as int] == *p);
        }
        let matches_key = match &sel {
            Some(s) => key_matches(p, s.0, s.1),
            None => true,
        };
        let past_cursor = match start_after {
            Some(c) => if descending {
                p.id < c
            } else {
                p.id > c
            },
            None => true,
        };
        let ghost f0 = ordered.subrange(0, k as int).filter(pred);
        proof {
            reveal_with_fuel(Seq::<OtcPosition>::filter, 3);
            assert(ordered.subrange(0, k as int + 1) =~= ordered.subrange(0, k as int) + seq![
                ordered[k as int],
            ]);
            Seq::<OtcPosition>::filter_distributes_over_add(
                ordered.subrange(0, k as int),
                seq![ordered[k as int]],
                pred,
            );
            assert(seq![ordered[k as int]].drop_last() =~= Seq::<OtcPosition>::empty());
            assert(Seq::<OtcPosition>::empty().filter(pred) =~= Seq::<OtcPosition>::empty());
            if pred(ordered[k as int]) {
                assert(seq![ordered[k as int]].filter(pred) =~= seq![ordered[k as int]]);
            } else {
                assert(seq![ordered[k as int]].filter(pred) =~= Seq::<OtcPosition>::empty());
            }
        }
        if matches_key && past_cursor && r.len() < limit as usize {
            let ghost r0 = r@;
            r.push(p);
            proof {
                assert(pred(ordered[k as int]));
                assert(derefs(r@) =~= derefs(r0) + seq![ordered[k as int]]);
                assert(f0.len() < limit as int);
                assert(take_limit(f0 + seq![ordered[k as int]], limit as int) =~= f0 + seq![
                    ordered[k as int],
                ]);
            }
        } else {
            proof {
                if pred(ordered[k as int]) {
                    assert(r@.len() == limit);
                    assert(f0.len() >= limit);
                    assert(take_limit(f0 + seq![ordered[k as int]], limit as int) =~= take_limit(
                        f0,
                        limit as int,
                    ));
                } else {
                    assert(f0 + Seq::<OtcPosition>::empty() =~= f0);
                }
            }
        }
        k = k + 1;
    }
    proof {
        assert(ordered.subrange(0, n as int) =~= ordered);
    }
    r
}

/// Enumerates the positions filing under `key` in the given secondary index,
/// in id order along `order`, starting strictly past `start_after`, at most
/// the (defaulted, capped) `limit` of them.
pub fn get_multi_index_values<'a>(
    store: &'a PositionStore,
    key: &Vec<String>,
    index: OtcPositionIndexer,
    order: QueryPositionsFilterOrder,
    start_after: Option<u64>,
    limit: Option<u32>,
) -> (r: Vec<&'a OtcPosition>)
    ensures
        derefs(r@) == spec_scan(
            store@,
            Some((index, views_of(key@))),
            start_after,
            order is Descending,
            spec_limit(limit),
        ),
{
    let lim = clamp_limit(limit);
    let descending = matches!(order, QueryPositionsFilterOrder::Descending);
    scan_positions(store, Some((index, key)), descending, start_after, lim)
}

/// Enumerates the whole table, in id order along `order`, starting strictly
/// past `start_after`, at most the (defaulted, capped) `limit` of them.
pub fn get_items<'a>(
    store: &'a PositionStore,
    order: QueryPositionsFilterOrder,
    limit: Option<u32>,
    start_after: Option<u64>,
) -> (r: Vec<&'a OtcPosition>)
    ensures
        derefs(r@) == spec_scan(
            store@,
            None,
            start_after,
            order is Descending,
            spec_limit(limit),
        ),
{
    let lim = clamp_limit(limit);
    let descending = matches!(order, QueryPositionsFilterOrder::Descending);
    scan_positions(store, None, descending, start_after, lim)
}

/// Defaults and caps a requested page size.
fn clamp_limit(limit: Option<u32>) -> (r: u32)
    ensures
        r as int == spec_limit(limit),
{
    let l = match limit {
        Some(l) => l,
        None => DEFAULT_LIMIT,
    };
    if l > MAX_LIMIT {
        MAX_LIMIT
    } else {
        l
    }
}

} // verus!


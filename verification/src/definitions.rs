//! The data model of the escrow: asset descriptors, vesting schedules,
//! positions and their lifecycle state machine, and the host-context values
//! the instruction handlers read.
//!
//! Principals and coin denominations are plain strings, quantities are plain
//! integers; the host validates principal strings against its own address
//! rules and hands the verified core the list of strings it accepted.

use vstd::prelude::*;

verus! {

use crate::math::{lemma_mul_div_le_total, mul_div, mul_ratio};
use crate::msgs::{CreateOtcMsg, OtcItemRegistration, VestingInfoRegistration};
use crate::response::ContractError;

/// The host context an instruction runs under: the escrow's own address and
/// the current block time in seconds.
#[derive(Debug)]
pub struct Env {
    pub contract_address: String,
    pub block_time: u64,
}

/// A quantity of one native coin.
#[derive(Debug, PartialEq, Eq)]
pub struct Coin {
    pub denom: String,
    pub amount: u128,
}

impl Clone for Coin {
    fn clone(&self) -> (r: Self)
        ensures
            r == *self,
    {
        Coin { denom: self.denom.clone(), amount: self.amount }
    }
}

/// Who sent the current instruction and which native coins came attached.
#[derive(Debug)]
pub struct MessageInfo {
    pub sender: String,
    pub funds: Vec<Coin>,
}

/// One outbound transfer instruction, handed back to the host for execution.
///
/// Building the host's concrete wire message from such a value is a purely
/// mechanical capability of the embedding layer.
#[derive(Debug, PartialEq, Eq)]
pub enum TransferMsg {
    /// Send native coins from the escrow to `to_address`.
    Bank { to_address: String, denom: String, amount: u128 },
    /// Move fungible tokens out of the escrow's own balance.
    Cw20Transfer { contract: String, recipient: String, amount: u128 },
    /// Pull fungible tokens from `owner`'s balance by allowance.
    Cw20TransferFrom { contract: String, owner: String, recipient: String, amount: u128 },
    /// Transfer one non-fungible token.
    Cw721TransferNft { contract: String, recipient: String, token_id: String },
}

/// Holds when the host vouched for the principal string `addr`.
pub open spec fn addr_known(valid: Seq<String>, addr: Seq<char>) -> bool {
    exists|i: int| 0 <= i < valid.len() && valid[i]@ == addr
}

/// Linear scan deciding [`addr_known`].
pub fn is_known_addr(valid: &Vec<String>, addr: &String) -> (r: bool)
    ensures
        r == addr_known(valid@, addr@),
{
    let mut i: usize = 0;
    while i < valid.len()
        invariant
            0 <= i <= valid@.len(),
            forall|j: int| 0 <= j < i ==> valid@[j]@ != addr@,
        decreases valid@.len() - i,
    {
        if valid[i].eq(addr) {
            return true;
        }
        i = i + 1;
    }
    false
}

/// What one transferable unit is: a native coin quantity, a fungible-token
/// quantity, or a single non-fungible token.
#[derive(Debug, PartialEq, Eq)]
pub enum OtcItemInfo {
    Token { denom: String, amount: u128 },
    Cw20 { contract: String, amount: u128 },
    Cw721 { contract: String, token_id: String },
}

impl Clone for OtcItemInfo {
    fn clone(&self) -> (r: Self)
        ensures
            r == *self,
    {
        match self {
            OtcItemInfo::Token { denom, amount } => OtcItemInfo::Token {
                denom: denom.clone(),
                amount: *amount,
            },
            OtcItemInfo::Cw20 { contract, amount } => OtcItemInfo::Cw20 {
                contract: contract.clone(),
                amount: *amount,
            },
            OtcItemInfo::Cw721 { contract, token_id } => OtcItemInfo::Cw721 {
                contract: contract.clone(),
                token_id: token_id.clone(),
            },
        }
    }
}

impl OtcItemInfo {
    /// The quantity this descriptor stands for; a non-fungible token counts
    /// as one indivisible unit.
    pub open spec fn spec_amount(&self) -> u128 {
        match *self {
            OtcItemInfo::Token { amount, .. } => amount,
            OtcItemInfo::Cw20 { amount, .. } => amount,
            OtcItemInfo::Cw721 { .. } => 1u128,
        }
    }

    /// Whether the host vouched for the contract this descriptor references;
    /// native coins reference no contract.
    pub open spec fn spec_valid(&self, valid: Seq<String>) -> bool {
        match *self {
            OtcItemInfo::Token { .. } => true,
            OtcItemInfo::Cw20 { contract, .. } => addr_known(valid, contract@),
            OtcItemInfo::Cw721 { contract, .. } => addr_known(valid, contract@),
        }
    }

    /// The exact outcome of validating this descriptor.
    pub open spec fn spec_validate(&self, valid: Seq<String>) -> Result<(), ContractError> {
        match *self {
            OtcItemInfo::Token { .. } => Ok(()),
            OtcItemInfo::Cw20 { contract, .. } => if addr_known(valid, contract@) {
                Ok(())
            } else {
                Err(ContractError::UnresolvableAddress { addr: contract })
            },
            OtcItemInfo::Cw721 { contract, .. } => if addr_known(valid, contract@) {
                Ok(())
            } else {
                Err(ContractError::UnresolvableAddress { addr: contract })
            },
        }
    }

    pub fn validate(&self, valid_addrs: &Vec<String>) -> (r: Result<(), ContractError>)
        ensures
            r == self.spec_validate(valid_addrs@),
            r is Ok <==> self.spec_valid(valid_addrs@),
    {
        match self {
            OtcItemInfo::Token { .. } => Ok(()),
            OtcItemInfo::Cw20 { contract, .. } => if is_known_addr(valid_addrs, contract) {
                Ok(())
            } else {
                Err(ContractError::UnresolvableAddress { addr: contract.clone() })
            },
            OtcItemInfo::Cw721 { contract, .. } => if is_known_addr(valid_addrs, contract) {
                Ok(())
            } else {
                Err(ContractError::UnresolvableAddress { addr: contract.clone() })
            },
        }
    }

    pub fn get_amount(&self) -> (r: u128)
        ensures
            r == self.spec_amount(),
    {
        match self {
            OtcItemInfo::Token { amount, .. } => *amount,
            OtcItemInfo::Cw20 { amount, .. } => *amount,
            OtcItemInfo::Cw721 { .. } => 1u128,
        }
    }

    /// The exact transfer (or rejection) that sending `override_amount` (or,
    /// if unset, the full quantity) of this item from `sender` to `to`
    /// produces, with `contract_addr` the escrow's own address.
    pub open spec fn spec_build_send_msg(
        &self,
        contract_addr: String,
        sender: String,
        to: String,
        override_amount: Option<u128>,
    ) -> Result<TransferMsg, ContractError> {
        if override_amount matches Some(a) && a == 0 {
            Err(ContractError::InvalidZeroAmount)
        } else {
            match *self {
                OtcItemInfo::Token { denom, amount } => if contract_addr@ != sender@ {
                    Err(ContractError::NativeSenderNotContract)
                } else {
                    Ok(TransferMsg::Bank {
                        to_address: to,
                        denom,
                        amount: spec_unwrap_or(override_amount, amount),
                    })
                },
                OtcItemInfo::Cw20 { contract, amount } => if contract_addr@ == sender@ {
                    Ok(TransferMsg::Cw20Transfer {
                        contract,
                        recipient: to,
                        amount: spec_unwrap_or(override_amount, amount),
                    })
                } else {
                    Ok(TransferMsg::Cw20TransferFrom {
                        contract,
                        owner: sender,
                        recipient: to,
                        amount: spec_unwrap_or(override_amount, amount),
                    })
                },
                OtcItemInfo::Cw721 { contract, token_id } => Ok(TransferMsg::Cw721TransferNft {
                    contract,
                    recipient: to,
                    token_id,
                }),
            }
        }
    }

    /// Builds the transfer moving this item from `sender` to `to`.
    ///
    /// Native coins can only leave the escrow's own balance; fungible tokens
    /// are pulled by allowance when the sender is a third party. An explicit
    /// zero quantity is rejected.
    pub fn build_send_msg(
        &self,
        env: &Env,
        sender: &String,
        to: &String,
        override_amount: Option<u128>,
    ) -> (r: Result<TransferMsg, ContractError>)
        ensures
            r == self.spec_build_send_msg(env.contract_address, *sender, *to, override_amount),
    {
        if let Some(a) = override_amount {
            if a == 0 {
                return Err(ContractError::InvalidZeroAmount);
            }
        }
        match self {
            OtcItemInfo::Token { denom, amount } => {
                if !env.contract_address.eq(sender) {
                    return Err(ContractError::NativeSenderNotContract);
                }
                let amt = match override_amount {
                    Some(a) => a,
                    None => *amount,
                };
                Ok(TransferMsg::Bank { to_address: to.clone(), denom: denom.clone(), amount: amt })
            },
            OtcItemInfo::Cw20 { contract, amount } => {
                let amt = match override_amount {
                    Some(a) => a,
                    None => *amount,
                };
                if env.contract_address.eq(sender) {
                    Ok(TransferMsg::Cw20Transfer {
                        contract: contract.clone(),
                        recipient: to.clone(),
                        amount: amt,
                    })
                } else {
                    Ok(TransferMsg::Cw20TransferFrom {
                        contract: contract.clone(),
                        owner: sender.clone(),
                        recipient: to.clone(),
                        amount: amt,
                    })
                }
            },
            OtcItemInfo::Cw721 { contract, token_id } => Ok(TransferMsg::Cw721TransferNft {
                contract: contract.clone(),
                recipient: to.clone(),
                token_id: token_id.clone(),
            }),
        }
    }
}

/// `override_amount` if set, the descriptor's own quantity otherwise.
pub open spec fn spec_unwrap_or(override_amount: Option<u128>, amount: u128) -> u128 {
    match override_amount {
        Some(a) => a,
        None => amount,
    }
}

/// A cliff-plus-linear-window release policy for one item, together with how
/// much of the item has been claimed so far.
#[derive(Debug, Clone, Copy, PartialEq, Eq, Structural)]
pub struct VestingInfo {
    /// Seconds after the vesting start during which nothing unlocks.
    pub cliff: Option<u64>,
    /// Seconds, counted past the cliff, over which the quantity unlocks
    /// linearly; unset means everything unlocks right past the cliff.
    pub vesting: Option<u64>,
    /// Quantity already claimed; monotone, never above the item's total.
    pub claimed: u128,
}

impl VestingInfo {
    /// A well-formed schedule sets at least one of cliff and window, and
    /// whichever it sets is strictly positive.
    pub open spec fn spec_wf(&self) -> bool {
        &&& self.cliff is Some || self.vesting is Some
        &&& (self.vesting matches Some(w) ==> w > 0)
        &&& (self.cliff matches Some(c) ==> c > 0)
    }

    /// The exact outcome of validating this schedule.
    pub open spec fn spec_validate(&self) -> Result<(), ContractError> {
        if self.cliff is None && self.vesting is None {
            Err(ContractError::VestingInfoEmpty)
        } else if self.vesting matches Some(w) && w == 0 {
            Err(ContractError::VestingWindowZero)
        } else if self.cliff matches Some(c) && c == 0 {
            Err(ContractError::CliffZero)
        } else {
            Ok(())
        }
    }

    pub fn validate(&self) -> (r: Result<(), ContractError>)
        ensures
            r == self.spec_validate(),
            r is Ok <==> self.spec_wf(),
    {
        if self.cliff.is_none() && self.vesting.is_none() {
            return Err(ContractError::VestingInfoEmpty);
        }
        if let Some(w) = self.vesting {
            if w == 0 {
                return Err(ContractError::VestingWindowZero);
            }
        }
        if let Some(c) = self.cliff {
            if c == 0 {
                return Err(ContractError::CliffZero);
            }
        }
        Ok(())
    }
}

impl From<VestingInfoRegistration> for VestingInfo {
    /// A freshly registered schedule starts with nothing claimed.
    fn from(value: VestingInfoRegistration) -> (r: VestingInfo) {
        VestingInfo { cliff: value.cliff, vesting: value.vesting, claimed: 0 }
    }
}

impl vstd::std_specs::convert::FromSpecImpl<VestingInfoRegistration> for VestingInfo {
    open spec fn obeys_from_spec() -> bool {
        true
    }

    open spec fn from_spec(v: VestingInfoRegistration) -> VestingInfo {
        VestingInfo { cliff: v.cliff, vesting: v.vesting, claimed: 0 }
    }
}

/// The lifecycle of a position: freshly created, settling under vesting
/// schedules since the recorded time, or terminally executed at the recorded
/// time.
#[derive(Debug, Clone, Copy, PartialEq, Eq, Structural)]
pub enum OtcPositionStatus {
    Pending,
    Vesting(u64),
    Executed(u64),
}

impl OtcPositionStatus {
    /// The discrete label the status is indexed and compared under; the
    /// timestamp payload is not part of it.
    pub open spec fn spec_label(&self) -> Seq<char> {
        match *self {
            OtcPositionStatus::Pending => "pending"@,
            OtcPositionStatus::Vesting(_) => "vesting"@,
            OtcPositionStatus::Executed(_) => "executed"@,
        }
    }

    /// How far along the one-way lifecycle the status is.
    pub open spec fn spec_rank(&self) -> int {
        match *self {
            OtcPositionStatus::Pending => 0,
            OtcPositionStatus::Vesting(_) => 1,
            OtcPositionStatus::Executed(_) => 2,
        }
    }

    /// The exact outcome of reading the vesting start time.
    pub open spec fn spec_vesting_start(&self) -> Result<u64, ContractError> {
        match *self {
            OtcPositionStatus::Vesting(t) => Ok(t),
            _ => Err(ContractError::StatusNotVesting),
        }
    }

    pub fn get_vesting_start(&self) -> (r: Result<u64, ContractError>)
        ensures
            r == self.spec_vesting_start(),
    {
        match self {
            OtcPositionStatus::Vesting(t) => Ok(*t),
            _ => Err(ContractError::StatusNotVesting),
        }
    }

    pub fn is_in_pending(&self) -> (r: bool)
        ensures
            r == (*self is Pending),
    {
        matches!(self, OtcPositionStatus::Pending)
    }

    pub fn as_string_ref(&self) -> (r: String)
        ensures
            r@ == self.spec_label(),
    {
        match self {
            OtcPositionStatus::Pending => "pending".to_owned(),
            OtcPositionStatus::Vesting(_) => "vesting".to_owned(),
            OtcPositionStatus::Executed(_) => "executed".to_owned(),
        }
    }
}

/// Statuses never move backwards: the rank may only grow.
pub open spec fn status_le(from: OtcPositionStatus, to: OtcPositionStatus) -> bool {
    from.spec_rank() <= to.spec_rank()
}

/// One escrowed unit: what it is, and under which schedule (if any) it
/// releases.
#[derive(Debug, PartialEq, Eq)]
pub struct OtcItem {
    pub item_info: OtcItemInfo,
    pub vesting_info: Option<VestingInfo>,
}

impl Clone for OtcItem {
    fn clone(&self) -> (r: Self)
        ensures
            r == *self,
    {
        OtcItem { item_info: self.item_info.clone(), vesting_info: self.vesting_info }
    }
}

/// The quantity already claimed of an item; an unscheduled item tracks none.
pub open spec fn claimed_of(item: OtcItem) -> u128 {
    match item.vesting_info {
        Some(v) => v.claimed,
        None => 0u128,
    }
}

/// Whether `now` still falls inside the schedule's cliff: nothing has
/// unlocked yet and a claim leaves the schedule untouched.
pub open spec fn in_cliff(v: VestingInfo, now: u64, start: u64) -> bool {
    v.cliff matches Some(c) && c >= now - start
}

/// The cliff length, zero when no cliff is set.
pub open spec fn cliff_of(v: VestingInfo) -> u64 {
    match v.cliff {
        Some(c) => c,
        None => 0u64,
    }
}

/// The total quantity unlocked by time `now` for an item of quantity `total`
/// vesting since `start`: cliff time does not count toward the window, the
/// window releases linearly rounding toward zero and saturates at the whole
/// quantity, and a schedule without a window releases everything right past
/// the cliff. Meaningful once `now` lies past `start` and the cliff.
pub open spec fn unlocked_amount(total: u128, v: VestingInfo, now: u64, start: u64) -> int {
    let delta = now - start - cliff_of(v);
    match v.vesting {
        Some(w) => mul_div(total, if delta <= w { delta } else { w as int }, w as int),
        None => total as int,
    }
}

/// When a claim at `now` on an item vesting since `start` is free of
/// arithmetic failure: time has not run backwards past the vesting start, a
/// configured window is positive, and the claimed amount has not overtaken
/// what is unlocked. The host's monotone clock and the creation rules
/// establish this for every position the instruction handlers see.
pub open spec fn item_claim_safe_from(item: OtcItem, start: u64, now: u64) -> bool {
    match item.vesting_info {
        Some(v) => {
            &&& now >= start
            &&& (v.vesting matches Some(w) ==> w > 0)
            &&& (!in_cliff(v, now, start) ==> v.claimed
                <= unlocked_amount(item.item_info.spec_amount(), v, now, start))
        },
        None => true,
    }
}

/// [`item_claim_safe_from`], read off the position status; when the position
/// does not vest no arithmetic happens.
pub open spec fn item_claim_safe(item: OtcItem, status: OtcPositionStatus, now: u64) -> bool {
    match status {
        OtcPositionStatus::Vesting(start) => item_claim_safe_from(item, start, now),
        _ => true,
    }
}

/// Claiming an item of a non-vesting position is an error exactly when the
/// item carries a schedule.
pub open spec fn spec_sendable_err(item: OtcItem, status: OtcPositionStatus) -> bool {
    item.vesting_info is Some && !(status is Vesting)
}

/// The item after a successful claim at `now`: inside the cliff (or without
/// a schedule) nothing changes, otherwise the claimed amount catches up with
/// the unlocked amount.
pub open spec fn spec_settled_item(item: OtcItem, status: OtcPositionStatus, now: u64) -> OtcItem {
    match (item.vesting_info, status) {
        (Some(v), OtcPositionStatus::Vesting(start)) => if in_cliff(v, now, start) {
            item
        } else {
            OtcItem {
                item_info: item.item_info,
                vesting_info: Some(
                    VestingInfo {
                        claimed: unlocked_amount(item.item_info.spec_amount(), v, now, start) as u128,
                        ..v
                    },
                ),
            }
        },
        _ => item,
    }
}

/// The quantity a successful claim at `now` transfers: the newly unlocked
/// increment for a scheduled item, the full quantity for an unscheduled one.
pub open spec fn spec_settle_amount(item: OtcItem, status: OtcPositionStatus, now: u64) -> u128 {
    match (item.vesting_info, status) {
        (Some(v), OtcPositionStatus::Vesting(start)) => if in_cliff(v, now, start) {
            0u128
        } else {
            (unlocked_amount(item.item_info.spec_amount(), v, now, start) - v.claimed) as u128
        },
        (Some(v), _) => 0u128,
        (None, _) => item.item_info.spec_amount(),
    }
}

/// A safe settlement step never lowers an item's claimed amount, and (past
/// the cliff) never raises it above the item's quantity.
pub proof fn lemma_settled_claims(item: OtcItem, status: OtcPositionStatus, now: u64)
    requires
        item_claim_safe(item, status, now),
    ensures
        claimed_of(spec_settled_item(item, status, now)) >= claimed_of(item),
        (match (item.vesting_info, status) {
            (Some(v), OtcPositionStatus::Vesting(start)) => !in_cliff(v, now, start),
            _ => false,
        }) ==> claimed_of(spec_settled_item(item, status, now))
            <= item.item_info.spec_amount(),
{
    match (item.vesting_info, status) {
        (Some(v), OtcPositionStatus::Vesting(start)) => {
            if !in_cliff(v, now, start) {
                let total = item.item_info.spec_amount();
                let delta = now - start - cliff_of(v);
                match v.vesting {
                    Some(w) => {
                        assert(delta >= 0);
                        lemma_mul_div_le_total(
                            total,
                            if delta <= w {
                                delta
                            } else {
                                w as int
                            },
                            w as int,
                        );
                    },
                    None => {},
                }
            }
        },
        _ => {},
    }
}

/// Time only unlocks more: once past the cliff, the unlocked amount is
/// monotone in the clock, and the cliff never re-engages.
pub proof fn lemma_unlocked_monotone(total: u128, v: VestingInfo, start: u64, now1: u64, now2: u64)
    requires
        start <= now1 <= now2,
        v.vesting matches Some(w) ==> w > 0,
        !in_cliff(v, now1, start),
    ensures
        !in_cliff(v, now2, start),
        unlocked_amount(total, v, now1, start) <= unlocked_amount(total, v, now2, start),
{
    let d1 = now1 - start - cliff_of(v);
    let d2 = now2 - start - cliff_of(v);
    match v.vesting {
        Some(w) => {
            crate::math::lemma_mul_div_monotone(
                total,
                if d1 <= w {
                    d1
                } else {
                    w as int
                },
                if d2 <= w {
                    d2
                } else {
                    w as int
                },
                w as int,
            );
        },
        None => {},
    }
}

/// The claimed amount of an item never exceeds the item's quantity: a safe
/// settlement pass keeps it within bounds (and never lowers it).
pub proof fn lemma_claimed_bounded(item: OtcItem, status: OtcPositionStatus, now: u64)
    requires
        item_claim_safe(item, status, now),
        claimed_of(item) <= item.item_info.spec_amount(),
    ensures
        claimed_of(item) <= claimed_of(spec_settled_item(item, status, now)),
        claimed_of(spec_settled_item(item, status, now)) <= item.item_info.spec_amount(),
{
    lemma_settled_claims(item, status, now);
}

/// Safety of claiming is stable under the host's monotone clock: an item that
/// can be settled now can be settled at any later time, before and after the
/// pass — so the claimed amount keeps trailing the unlocked amount for the
/// whole life of the position.
pub proof fn lemma_claim_safety_persists(item: OtcItem, start: u64, now1: u64, now2: u64)
    requires
        now1 <= now2,
        item_claim_safe_from(item, start, now1),
        (match item.vesting_info {
            Some(v) => in_cliff(v, now1, start) ==> v.claimed == 0,
            None => true,
        }),
    ensures
        item_claim_safe_from(item, start, now2),
        item_claim_safe_from(
            spec_settled_item(item, OtcPositionStatus::Vesting(start), now1),
            start,
            now2,
        ),
        (match spec_settled_item(item, OtcPositionStatus::Vesting(start), now1).vesting_info {
            Some(v) => in_cliff(v, now2, start) ==> v.claimed == 0,
            None => true,
        }),
{
    match item.vesting_info {
        Some(v) => {
            let total = item.item_info.spec_amount();
            if in_cliff(v, now1, start) {
                if !in_cliff(v, now2, start) {
                    let d2 = now2 - start - cliff_of(v);
                    match v.vesting {
                        Some(w) => {
                            lemma_mul_div_le_total(
                                total,
                                0,
                                w as int,
                            );
                            crate::math::lemma_mul_div_monotone(
                                total,
                                0,
                                if d2 <= w {
                                    d2
                                } else {
                                    w as int
                                },
                                w as int,
                            );
                        },
                        None => {},
                    }
                }
            } else {
                lemma_unlocked_monotone(total, v, start, now1, now2);
            }
        },
        None => {},
    }
}

/// A bundle that validates as a whole validates item by item.
pub proof fn lemma_validate_items_all(items: Seq<OtcItem>, valid: Seq<String>)
    requires
        spec_validate_items(items, valid) is Ok,
    ensures
        forall|i: int| 0 <= i < items.len() ==> (#[trigger] items[i]).spec_validate(valid) is Ok,
    decreases items.len(),
{
    if items.len() > 0 {
        lemma_validate_items_all(items.drop_first(), valid);
        assert forall|i: int| 0 <= i < items.len() implies (#[trigger] items[i]).spec_validate(
            valid,
        ) is Ok by {
            if i > 0 {
                assert(items.drop_first()[i - 1] == items[i]);
            }
        }
    }
}

/// A validated bundle whose schedules have nothing claimed yet can enter
/// vesting at any time: creation establishes the settlement precondition of
/// the execute instruction.
pub proof fn lemma_fresh_bundle_execute_safe(items: Seq<OtcItem>, valid: Seq<String>, now: u64)
    requires
        spec_validate_items(items, valid) is Ok,
        forall|i: int| 0 <= i < items.len() ==> claimed_of(#[trigger] items[i]) == 0,
    ensures
        forall|i: int| 0 <= i < items.len() ==> item_claim_safe_from(#[trigger] items[i], now, now),
{
    lemma_validate_items_all(items, valid);
    assert forall|i: int| 0 <= i < items.len() implies item_claim_safe_from(
        #[trigger] items[i],
        now,
        now,
    ) by {
        match items[i].vesting_info {
            Some(v) => {
                assert(v.spec_validate() is Ok);
                if !in_cliff(v, now, now) {
                    assert(v.cliff is None);
                    match v.vesting {
                        Some(w) => {
                            assert(unlocked_amount(items[i].item_info.spec_amount(), v, now, now)
                                == items[i].item_info.spec_amount() * 0 / (w as int));
                            assert(items[i].item_info.spec_amount() * 0 == 0) by (nonlinear_arith);
                        },
                        None => {},
                    }
                }
            },
            None => {},
        }
    }
}

impl OtcItem {
    /// The exact outcome of validating this item: the schedule first, then
    /// the descriptor.
    pub open spec fn spec_validate(&self, valid: Seq<String>) -> Result<(), ContractError> {
        match self.vesting_info {
            Some(v) => match v.spec_validate() {
                Err(e) => Err(e),
                Ok(_) => self.item_info.spec_validate(valid),
            },
            None => self.item_info.spec_validate(valid),
        }
    }

    pub fn validate(&self, valid_addrs: &Vec<String>) -> (r: Result<(), ContractError>)
        ensures
            r == self.spec_validate(valid_addrs@),
    {
        if let Some(vesting) = &self.vesting_info {
            match vesting.validate() {
                Err(e) => {
                    return Err(e);
                },
                Ok(_) => {},
            }
        }
        self.item_info.validate(valid_addrs)
    }

    /// The vesting calculator: computes the claimable increment at the
    /// current time and adds it to the claimed amount in the same step, so
    /// that claiming twice in the same instant yields zero the second time.
    ///
    /// Inside the cliff the claim yields zero and mutates nothing; past it,
    /// the claimed amount catches up with the unlocked amount and the
    /// difference is returned. An unscheduled item always yields its full
    /// quantity and tracks no state. Fails when the position does not vest.
    pub fn sendable_amount_and_update_claimed_amount(
        &mut self,
        env: &Env,
        position_status: &OtcPositionStatus,
    ) -> (r: Result<u128, ContractError>)
        requires
            item_claim_safe(*old(self), *position_status, env.block_time),
        ensures
            spec_sendable_err(*old(self), *position_status) ==> r
                == Err::<u128, ContractError>(ContractError::StatusNotVesting) && *final(self)
                == *old(self),
            !spec_sendable_err(*old(self), *position_status) ==> r == Ok::<u128, ContractError>(
                spec_settle_amount(*old(self), *position_status, env.block_time),
            ) && *final(self) == spec_settled_item(*old(self), *position_status, env.block_time),
            claimed_of(*final(self)) >= claimed_of(*old(self)),
            claimed_of(*final(self)) <= claimed_of(*old(self)) + spec_settle_amount(
                *old(self),
                *position_status,
                env.block_time,
            ),
            final(self).item_info == old(self).item_info,
    {
        let max_amount = self.item_info.get_amount();
        match &mut self.vesting_info {
            Some(vesting_info) => {
                let vesting_start = match position_status.get_vesting_start() {
                    Ok(t) => t,
                    Err(e) => {
                        return Err(e);
                    },
                };
                let mut delta = env.block_time - vesting_start;

                match vesting_info.cliff {
                    Some(cliff) => {
                        if cliff >= delta {
                            return Ok(0);
                        }
                        delta = delta - cliff;
                    },
                    None => {},
                }

                let unchecked_claimable_amount = match vesting_info.vesting {
                    Some(vesting_window) => mul_ratio(
                        max_amount,
                        if delta < vesting_window {
                            delta
                        } else {
                            vesting_window
                        },
                        vesting_window,
                    ),
                    None => max_amount,
                };

                proof {
                    if vesting_info.vesting is Some {
                        lemma_mul_div_le_total(
                            max_amount,
                            if delta <= vesting_info.vesting->Some_0 {
                                delta as int
                            } else {
                                vesting_info.vesting->Some_0 as int
                            },
                            vesting_info.vesting->Some_0 as int,
                        );
                    }
                }
                let claimable_amount = unchecked_claimable_amount - vesting_info.claimed;

                vesting_info.claimed = vesting_info.claimed + claimable_amount;

                Ok(claimable_amount)
            },
            None => Ok(max_amount),
        }
    }
}

impl From<OtcItemRegistration> for OtcItem {
    /// A registered item carries its descriptor over and starts its schedule
    /// (if any) with nothing claimed.
    fn from(value: OtcItemRegistration) -> (r: OtcItem) {
        OtcItem {
            item_info: value.item_info,
            vesting_info: match value.vesting {
                Some(v) => Some(VestingInfo::from(v)),
                None => None,
            },
        }
    }
}

impl vstd::std_specs::convert::FromSpecImpl<OtcItemRegistration> for OtcItem {
    open spec fn obeys_from_spec() -> bool {
        true
    }

    open spec fn from_spec(v: OtcItemRegistration) -> OtcItem {
        spec_item_from_registration(v)
    }
}

/// The item a registration stands for: same descriptor, fresh schedule.
pub open spec fn spec_item_from_registration(reg: OtcItemRegistration) -> OtcItem {
    OtcItem {
        item_info: reg.item_info,
        vesting_info: match reg.vesting {
            Some(v) => Some(VestingInfo { cliff: v.cliff, vesting: v.vesting, claimed: 0u128 }),
            None => None,
        },
    }
}

/// The process-wide configuration: the deployment owner, the position id
/// counter, and the fee bundle forwarded to the fee collector on each
/// create and execute action.
#[derive(Debug)]
pub struct Config {
    pub owner: String,
    pub counter_otc: u64,
    pub fee: Vec<OtcItemInfo>,
    pub fee_collector: String,
}

/// The exact outcome of validating a list of descriptors: the first
/// rejection wins.
pub open spec fn spec_validate_infos(
    items: Seq<OtcItemInfo>,
    valid: Seq<String>,
) -> Result<(), ContractError>
    decreases items.len(),
{
    if items.len() == 0 {
        Ok(())
    } else {
        match items[0].spec_validate(valid) {
            Err(e) => Err(e),
            Ok(_) => spec_validate_infos(items.drop_first(), valid),
        }
    }
}

/// Reduces validating a list to validating its suffix once a prefix is known
/// good.
pub proof fn lemma_validate_infos_skip(items: Seq<OtcItemInfo>, valid: Seq<String>, i: int)
    requires
        0 <= i <= items.len(),
        forall|j: int| 0 <= j < i ==> items[j].spec_validate(valid) is Ok,
    ensures
        spec_validate_infos(items, valid) == spec_validate_infos(
            items.subrange(i, items.len() as int),
            valid,
        ),
    decreases i,
{
    if i == 0 {
        assert(items.subrange(0, items.len() as int) =~= items);
    } else {
        lemma_validate_infos_skip(items, valid, i - 1);
        let s = items.subrange(i - 1, items.len() as int);
        assert(s[0] == items[i - 1]);
        assert(s.drop_first() =~= items.subrange(i, items.len() as int));
    }
}

impl Config {
    /// Validates the fee bundle and assembles the initial configuration with
    /// the position counter at zero.
    pub fn new(
        owner: String,
        fee: Vec<OtcItemInfo>,
        fee_collector: String,
        valid_addrs: &Vec<String>,
    ) -> (r: Result<Config, ContractError>)
        ensures
            match r {
                Ok(c) => {
                    &&& spec_validate_infos(fee@, valid_addrs@) is Ok
                    &&& c.owner == owner
                    &&& c.counter_otc == 0
                    &&& c.fee@ == fee@
                    &&& c.fee_collector == fee_collector
                },
                Err(e) => spec_validate_infos(fee@, valid_addrs@) == Err::<(), ContractError>(e),
            },
    {
        let mut i: usize = 0;
        while i < fee.len()
            invariant
                0 <= i <= fee@.len(),
                forall|j: int| 0 <= j < i ==> fee@[j].spec_validate(valid_addrs@) is Ok,
            decreases fee@.len() - i,
        {
            match fee[i].validate(valid_addrs) {
                Err(e) => {
                    proof {
                        lemma_validate_infos_skip(fee@, valid_addrs@, i as int);
                        assert(fee@.subrange(i as int, fee@.len() as int)[0] == fee@[i as int]);
                    }
                    return Err(e);
                },
                Ok(_) => {},
            }
            i = i + 1;
        }
        proof {
            lemma_validate_infos_skip(fee@, valid_addrs@, fee@.len() as int);
            assert(fee@.subrange(fee@.len() as int, fee@.len() as int) =~= Seq::<
                OtcItemInfo,
            >::empty());
        }
        Ok(Config { owner, counter_otc: 0, fee, fee_collector })
    }
}

/// One escrow agreement: the owner's offer bundle, the ask bundle owed in
/// return, the (possibly still open) executor, and the lifecycle status.
#[derive(Debug, PartialEq, Eq)]
pub struct OtcPosition {
    pub id: u64,
    pub owner: String,
    pub executor: Option<String>,
    pub offer: Vec<OtcItem>,
    pub ask: Vec<OtcItem>,
    pub creation_time: u64,
    pub status: OtcPositionStatus,
}

/// Copies a bundle, item by item.
pub fn clone_items(items: &Vec<OtcItem>) -> (r: Vec<OtcItem>)
    ensures
        r@ == items@,
{
    let mut r: Vec<OtcItem> = Vec::new();
    let mut k: usize = 0;
    while k < items.len()
        invariant
            0 <= k <= items@.len(),
            r@.len() == k,
            forall|j: int| 0 <= j < k ==> r@[j] == items@[j],
        decreases items@.len() - k,
    {
        r.push(items[k].clone());
        k = k + 1;
    }
    proof {
        assert(r@ =~= items@);
    }
    r
}

impl Clone for OtcPosition {
    fn clone(&self) -> (r: Self)
        ensures
            pos_matches(r, *self),
    {
        OtcPosition {
            id: self.id,
            owner: self.owner.clone(),
            executor: match &self.executor {
                Some(e) => Some(e.clone()),
                None => None,
            },
            offer: clone_items(&self.offer),
            ask: clone_items(&self.ask),
            creation_time: self.creation_time,
            status: self.status,
        }
    }
}

/// Field-wise agreement of two positions; bundle fields are compared as
/// sequences.
pub open spec fn pos_matches(a: OtcPosition, b: OtcPosition) -> bool {
    &&& a.id == b.id
    &&& a.owner == b.owner
    &&& a.executor == b.executor
    &&& a.offer@ == b.offer@
    &&& a.ask@ == b.ask@
    &&& a.creation_time == b.creation_time
    &&& a.status == b.status
}

/// The exact outcome of validating a list of items: the first rejection
/// wins.
pub open spec fn spec_validate_items(
    items: Seq<OtcItem>,
    valid: Seq<String>,
) -> Result<(), ContractError>
    decreases items.len(),
{
    if items.len() == 0 {
        Ok(())
    } else {
        match items[0].spec_validate(valid) {
            Err(e) => Err(e),
            Ok(_) => spec_validate_items(items.drop_first(), valid),
        }
    }
}

/// Reduces validating a list to validating its suffix once a prefix is known
/// good.
pub proof fn lemma_validate_items_skip(items: Seq<OtcItem>, valid: Seq<String>, i: int)
    requires
        0 <= i <= items.len(),
        forall|j: int| 0 <= j < i ==> items[j].spec_validate(valid) is Ok,
    ensures
        spec_validate_items(items, valid) == spec_validate_items(
            items.subrange(i, items.len() as int),
            valid,
        ),
    decreases i,
{
    if i == 0 {
        assert(items.subrange(0, items.len() as int) =~= items);
    } else {
        lemma_validate_items_skip(items, valid, i - 1);
        let s = items.subrange(i - 1, items.len() as int);
        assert(s[0] == items[i - 1]);
        assert(s.drop_first() =~= items.subrange(i, items.len() as int));
    }
}

/// Validates a list of items in order, returning the first rejection.
fn validate_items(items: &Vec<OtcItem>, valid_addrs: &Vec<String>) -> (r: Result<
    (),
    ContractError,
>)
    ensures
        r == spec_validate_items(items@, valid_addrs@),
{
    let mut i: usize = 0;
    while i < items.len()
        invariant
            0 <= i <= items@.len(),
            forall|j: int| 0 <= j < i ==> items@[j].spec_validate(valid_addrs@) is Ok,
        decreases items@.len() - i,
    {
        match items[i].validate(valid_addrs) {
            Err(e) => {
                proof {
                    lemma_validate_items_skip(items@, valid_addrs@, i as int);
                    assert(items@.subrange(i as int, items@.len() as int)[0] == items@[i as int]);
                }
                return Err(e);
            },
            Ok(_) => {},
        }
        i = i + 1;
    }
    proof {
        lemma_validate_items_skip(items@, valid_addrs@, items@.len() as int);
        assert(items@.subrange(items@.len() as int, items@.len() as int) =~= Seq::<
            OtcItem,
        >::empty());
    }
    Ok(())
}

/// Every scheduled item of the bundle has its full quantity claimed.
pub open spec fn all_vested_claimed(items: Seq<OtcItem>) -> bool {
    forall|i: int|
        0 <= i < items.len() ==> (#[trigger] items[i].vesting_info matches Some(v) ==> v.claimed
            == items[i].item_info.spec_amount())
}

/// The exact outcome of validating a position: the executor first, then the
/// offer bundle, then the ask bundle.
pub open spec fn spec_validate_position(
    p: OtcPosition,
    valid: Seq<String>,
) -> Result<(), ContractError> {
    if p.executor matches Some(e) && !addr_known(valid, e@) {
        Err(ContractError::UnresolvableAddress { addr: p.executor->Some_0 })
    } else {
        match spec_validate_items(p.offer@, valid) {
            Err(e) => Err(e),
            Ok(_) => spec_validate_items(p.ask@, valid),
        }
    }
}

impl OtcPosition {
    pub fn validate(&self, valid_addrs: &Vec<String>) -> (r: Result<(), ContractError>)
        ensures
            r == spec_validate_position(*self, valid_addrs@),
    {
        if let Some(executor) = &self.executor {
            if !is_known_addr(valid_addrs, executor) {
                return Err(ContractError::UnresolvableAddress { addr: executor.clone() });
            }
        }
        match validate_items(&self.offer, valid_addrs) {
            Err(e) => Err(e),
            Ok(_) => validate_items(&self.ask, valid_addrs),
        }
    }

    /// Assembles the pending position a create instruction registers:
    /// sequential id, the caller as owner, the optional designated executor
    /// (rejected if the host did not vouch for it), and fresh schedules.
    pub fn from_create_otc_msg(env: &Env, msg: CreateOtcMsg, id: u64, owner: String, valid_addrs: &Vec<String>) -> (r:
        Result<OtcPosition, ContractError>)
        ensures
            match r {
                Ok(p) => {
                    &&& (msg.executor matches Some(e) ==> addr_known(valid_addrs@, e@))
                    &&& p.id == id
                    &&& p.owner == owner
                    &&& p.executor == msg.executor
                    &&& p.offer@ == msg.offer@.map_values(
                        |reg: OtcItemRegistration| spec_item_from_registration(reg),
                    )
                    &&& p.ask@ == msg.ask@.map_values(
                        |reg: OtcItemRegistration| spec_item_from_registration(reg),
                    )
                    &&& p.creation_time == env.block_time
                    &&& p.status == OtcPositionStatus::Pending
                },
                Err(e) => {
                    &&& msg.executor matches Some(ex) && !addr_known(valid_addrs@, ex@)
                    &&& e == (ContractError::UnresolvableAddress { addr: msg.executor->Some_0 })
                },
            },
    {
        let executor = match msg.executor {
            Some(e) => {
                if !is_known_addr(valid_addrs, &e) {
                    return Err(ContractError::UnresolvableAddress { addr: e });
                }
                Some(e)
            },
            None => None,
        };
        let offer = registrations_into_items(msg.offer);
        let ask = registrations_into_items(msg.ask);
        Ok(
            OtcPosition {
                id,
                owner,
                executor,
                offer,
                ask,
                creation_time: env.block_time,
                status: OtcPositionStatus::Pending,
            },
        )
    }

    /// The `Pending -> Vesting` transition: binds the executor to the caller
    /// if none was designated, rejects a caller that differs from a
    /// designated executor, and records the vesting start time. Note that a
    /// rejection for a non-pending status still leaves the executor bound,
    /// as the caller discards the position on error.
    pub fn active(&mut self, env: &Env, executor: &String) -> (r: Result<(), ContractError>)
        ensures
            match old(self).executor {
                Some(saved) => saved@ != executor@ ==> r == Err::<(), ContractError>(
                    ContractError::Unauthorized,
                ) && *final(self) == *old(self),
                None => true,
            },
            (match old(self).executor {
                Some(saved) => saved@ == executor@,
                None => true,
            }) ==> {
                let bound = match old(self).executor {
                    Some(saved) => Some(saved),
                    None => Some(*executor),
                };
                &&& final(self).executor == bound
                &&& final(self).id == old(self).id
                &&& final(self).owner == old(self).owner
                &&& final(self).offer == old(self).offer
                &&& final(self).ask == old(self).ask
                &&& final(self).creation_time == old(self).creation_time
                &&& (old(self).status is Pending ==> r is Ok && final(self).status
                    == OtcPositionStatus::Vesting(env.block_time))
                &&& (!(old(self).status is Pending) ==> r == Err::<(), ContractError>(
                    ContractError::ExecuteRequiresPending,
                ) && final(self).status == old(self).status)
            },
            status_le(old(self).status, final(self).status),
            r is Ok ==> old(self).status is Pending && final(self).status
                == OtcPositionStatus::Vesting(env.block_time) && final(self).executor is Some,
    {
        match &self.executor {
            Some(saved_executor) => {
                if !saved_executor.eq(executor) {
                    return Err(ContractError::Unauthorized);
                }
            },
            None => {
                self.executor = Some(executor.clone());
            },
        }

        match self.status {
            OtcPositionStatus::Pending => {
                self.status = OtcPositionStatus::Vesting(env.block_time);
            },
            _ => {
                return Err(ContractError::ExecuteRequiresPending);
            },
        }

        Ok(())
    }

    /// The `Vesting -> Executed` close check: closes the position exactly
    /// when every scheduled item across both bundles is fully claimed;
    /// otherwise leaves it vesting. Idempotent and only defined while the
    /// position vests.
    #[verifier::loop_isolation(false)]
    pub fn try_close(&mut self, env: &Env) -> (r: Result<(), ContractError>)
        ensures
            !(old(self).status is Vesting) ==> r == Err::<(), ContractError>(
                ContractError::TryCloseRequiresVesting,
            ) && *final(self) == *old(self),
            old(self).status is Vesting ==> {
                &&& r is Ok
                &&& final(self).id == old(self).id
                &&& final(self).owner == old(self).owner
                &&& final(self).executor == old(self).executor
                &&& final(self).offer == old(self).offer
                &&& final(self).ask == old(self).ask
                &&& final(self).creation_time == old(self).creation_time
                &&& final(self).status == if all_vested_claimed(old(self).ask@)
                    && all_vested_claimed(old(self).offer@) {
                    OtcPositionStatus::Executed(env.block_time)
                } else {
                    old(self).status
                }
            },
            r is Ok ==> (final(self).status is Executed <==> all_vested_claimed(old(self).ask@)
                && all_vested_claimed(old(self).offer@)),
            status_le(old(self).status, final(self).status),
    {
        match self.status {
            OtcPositionStatus::Vesting(_) => {},
            _ => {
                return Err(ContractError::TryCloseRequiresVesting);
            },
        }

        let mut i: usize = 0;
        while i < self.ask.len()
            invariant
                0 <= i <= self.ask@.len(),
                forall|j: int|
                    0 <= j < i ==> (#[trigger] self.ask@[j].vesting_info matches Some(v)
                        ==> v.claimed == self.ask@[j].item_info.spec_amount()),
            decreases self.ask@.len() - i,
        {
            match &self.ask[i].vesting_info {
                Some(vesting_info) => {
                    if vesting_info.claimed != self.ask[i].item_info.get_amount() {
                        return Ok(());
                    }
                },
                None => {},
            }
            i = i + 1;
        }

        let mut i: usize = 0;
        while i < self.offer.len()
            invariant
                0 <= i <= self.offer@.len(),
                forall|j: int|
                    0 <= j < i ==> (#[trigger] self.offer@[j].vesting_info matches Some(v)
                        ==> v.claimed == self.offer@[j].item_info.spec_amount()),
            decreases self.offer@.len() - i,
        {
            match &self.offer[i].vesting_info {
                Some(vesting_info) => {
                    if vesting_info.claimed != self.offer[i].item_info.get_amount() {
                        return Ok(());
                    }
                },
                None => {},
            }
            i = i + 1;
        }

        self.status = OtcPositionStatus::Executed(env.block_time);
        Ok(())
    }
}

/// Turns registered items into position items, in order.
fn registrations_into_items(regs: Vec<OtcItemRegistration>) -> (r: Vec<OtcItem>)
    ensures
        r@ == regs@.map_values(|reg: OtcItemRegistration| spec_item_from_registration(reg)),
{
    let ghost orig = regs@;
    let mut regs = regs;
    let mut items: Vec<OtcItem> = Vec::new();
    while regs.len() > 0
        invariant
            items@.len() + regs@.len() == orig.len(),
            regs@ =~= orig.subrange(items@.len() as int, orig.len() as int),
            forall|j: int|
                0 <= j < items@.len() ==> items@[j] == spec_item_from_registration(#[trigger] orig[j]),
        decreases regs@.len(),
    {
        let reg = regs.remove(0);
        items.push(OtcItem::from(reg));
    }
    proof {
        assert(items@ =~= orig.map_values(|reg: OtcItemRegistration| spec_item_from_registration(reg)));
    }
    items
}

} // verus!


//! Instruction outcomes: the response carried back to the host and the error
//! taxonomy.
//!
//! A successful instruction returns a [`Response`]: the ordered list of
//! outbound transfers to execute atomically with the state commit, plus an
//! attribute trail summarizing the action. Errors abort the whole
//! instruction; no partial settlement is ever returned.

use vstd::prelude::*;

verus! {

use crate::definitions::TransferMsg;

/// Why an instruction was rejected. Every error leaves the store and the
/// configuration untouched.
#[derive(Debug, PartialEq, Eq)]
pub enum ContractError {
    /// The caller is not entitled to perform the requested action.
    Unauthorized,
    /// No position with this id is in the store.
    PositionNotFound { id: u64 },
    /// A vesting schedule must set a cliff or a window (or both).
    VestingInfoEmpty,
    /// A configured vesting window must be strictly positive.
    VestingWindowZero,
    /// A configured cliff must be strictly positive.
    CliffZero,
    /// A referenced principal could not be resolved by the host.
    UnresolvableAddress { addr: String },
    /// A transfer of zero quantity was requested explicitly.
    InvalidZeroAmount,
    /// A native-coin transfer can only be sent by the escrow itself.
    NativeSenderNotContract,
    /// The attached funds do not include the required coin at all.
    CoinNotReceived { denom: String },
    /// The attached funds include the coin, but not enough of it.
    CoinAmountTooLow { denom: String },
    /// Executing requires the position to still be pending.
    ExecuteRequiresPending,
    /// Cancelling requires the position to still be pending.
    CancelRequiresPending,
    /// The requested quantity is only defined while the position vests.
    StatusNotVesting,
    /// The close check is only defined while the position vests.
    TryCloseRequiresVesting,
    /// A settled position must be vesting or executed.
    PositionNotActive,
    /// A claim computed no transfer at all.
    NothingToClaim,
    /// An enumeration filter was supplied but selects on nothing.
    NoFilterProvided,
}

/// The value of one response attribute: either a text label or a position id.
#[derive(Debug, PartialEq, Eq)]
pub enum AttrValue {
    Text(String),
    Id(u64),
}

/// One entry of the attribute trail a successful instruction emits.
#[derive(Debug, PartialEq, Eq)]
pub struct Attribute {
    pub key: String,
    pub value: AttrValue,
}

/// Holds when `a` is the attribute `key` with the text value `value`.
pub open spec fn attr_text(a: Attribute, key: Seq<char>, value: Seq<char>) -> bool {
    &&& a.key@ == key
    &&& a.value matches AttrValue::Text(s) && s@ == value
}

/// Holds when `a` is the attribute `key` carrying the position id `id`.
pub open spec fn attr_id(a: Attribute, key: Seq<char>, id: u64) -> bool {
    &&& a.key@ == key
    &&& a.value == AttrValue::Id(id)
}

/// Builds an attribute from a key literal and a value.
pub fn attr(key: &str, value: AttrValue) -> (r: Attribute)
    ensures
        r.key@ == key@,
        r.value == value,
{
    Attribute { key: key.to_owned(), value }
}

/// What a successful instruction hands back to the host: the outbound
/// transfers to perform and the attribute trail.
#[derive(Debug, PartialEq, Eq)]
pub struct Response {
    pub messages: Vec<TransferMsg>,
    pub attributes: Vec<Attribute>,
}

pub type ContractResponse = Result<Response, ContractError>;

} // verus!

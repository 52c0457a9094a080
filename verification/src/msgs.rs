//! The instruction surface: request shapes for the four state-changing
//! instructions and the two queries.

use vstd::prelude::*;

verus! {

use crate::definitions::OtcItemInfo;

/// Deployment parameters: the owner, the fee bundle, and who collects it.
#[derive(Debug)]
pub struct InstantiateMsg {
    pub owner: String,
    pub fee: Vec<OtcItemInfo>,
    pub fee_collector: String,
}

/// One of the four state-changing instructions.
#[derive(Debug)]
pub enum ExecuteMsg {
    CreateOtc(CreateOtcMsg),
    ExecuteOtc(ExecuteOtcMsg),
    ClaimOtc(ClaimOtcMsg),
    CancelOtc(CancelOtcMsg),
}

/// Opens a position: the offer the caller deposits, the ask it wants back,
/// and optionally a designated counterparty.
#[derive(Debug)]
pub struct CreateOtcMsg {
    pub executor: Option<String>,
    pub offer: Vec<OtcItemRegistration>,
    pub ask: Vec<OtcItemRegistration>,
}

/// Deposits the ask bundle of the addressed position and starts settlement.
#[derive(Debug, Clone, Copy, PartialEq, Eq, Structural)]
pub struct ExecuteOtcMsg {
    pub id: u64,
}

/// Claims whatever has newly unlocked of the bundle owed to the caller.
#[derive(Debug, Clone, Copy, PartialEq, Eq, Structural)]
pub struct ClaimOtcMsg {
    pub id: u64,
}

/// Withdraws a still-pending position and returns its offer to the owner.
#[derive(Debug, Clone, Copy, PartialEq, Eq, Structural)]
pub struct CancelOtcMsg {
    pub id: u64,
}

/// One of the two read-only queries.
#[derive(Debug)]
pub enum QueryMsg {
    Position { id: u64 },
    Positions {
        limit: Option<u32>,
        start_after: Option<u64>,
        filters: Option<QueryPositionsFilter>,
        order: Option<QueryPositionsFilterOrder>,
    },
}

/// A migration carries nothing.
#[derive(Debug, Clone, Copy, PartialEq, Eq, Structural)]
pub struct MigrateMsg {}

/// A schedule as registered at creation; the claimed amount starts at zero.
#[derive(Debug, Clone, Copy, PartialEq, Eq, Structural)]
pub struct VestingInfoRegistration {
    pub cliff: Option<u64>,
    pub vesting: Option<u64>,
}

/// One item of an offer or ask bundle as registered at creation.
#[derive(Debug)]
pub struct OtcItemRegistration {
    pub item_info: OtcItemInfo,
    pub vesting: Option<VestingInfoRegistration>,
}

/// Which positions to enumerate; every subset of the three fields is a
/// supported combination, but at least one must be set.
#[derive(Debug)]
pub struct QueryPositionsFilter {
    pub owner: Option<String>,
    pub executor: Option<String>,
    pub status: Option<QueryPositionsFilterStatus>,
}

/// The status label a filter selects on; the timestamp payload of a status
/// takes no part in filtering.
#[derive(Debug, Clone, Copy, PartialEq, Eq, Structural)]
pub enum QueryPositionsFilterStatus {
    Vesting,
    Pending,
    Executed,
}

impl QueryPositionsFilterStatus {
    /// The label this filter status selects.
    pub open spec fn spec_label(&self) -> Seq<char> {
        match *self {
            QueryPositionsFilterStatus::Vesting => "vesting"@,
            QueryPositionsFilterStatus::Pending => "pending"@,
            QueryPositionsFilterStatus::Executed => "executed"@,
        }
    }

    pub fn as_string(&self) -> (r: String)
        ensures
            r@ == self.spec_label(),
    {
        match self {
            QueryPositionsFilterStatus::Vesting => "vesting".to_owned(),
            QueryPositionsFilterStatus::Pending => "pending".to_owned(),
            QueryPositionsFilterStatus::Executed => "executed".to_owned(),
        }
    }
}

/// Scan direction of an enumeration, by position id.
#[derive(Debug, Clone, Copy, PartialEq, Eq, Structural)]
pub enum QueryPositionsFilterOrder {
    Ascending,
    Descending,
}

} // verus!

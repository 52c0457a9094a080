//! A peer-to-peer over-the-counter asset-swap escrow core.
//!
//! One party (the owner) locks an offer bundle of assets, optionally names a
//! counterparty (the executor), and states the ask bundle it wants in return.
//! The position then moves through a lifecycle: `Pending` until the
//! counterparty deposits the ask bundle, `Vesting` while per-item cliff/linear
//! schedules release quantities to both sides, and finally `Executed` once
//! every scheduled item is fully claimed. Positions are kept in a store that
//! answers filtered, ordered, paginated enumeration queries.
//!
//! This crate holds the verified core: the data model, the vesting
//! calculator, the position state machine, the settlement orchestration and
//! the indexed position store. Outbound transfers are described as plain
//! [`definitions::TransferMsg`] values; turning them into chain messages, as
//! well as message routing and persistence, is the embedding host's concern.

pub mod definitions;
pub mod execute;
pub mod functions;
pub mod math;
pub mod msgs;
pub mod query;
pub mod response;
pub mod state;

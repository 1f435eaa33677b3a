//! Messages accepted by the four lifecycle operations, and the stored
//! price record they produce.
//!
//! Identities are carried as plain strings that the host has already
//! validated; the price value is carried as the decimal's string form and
//! is never inspected arithmetically; points in time are nanoseconds.

use vstd::prelude::*;

verus! {

/// Input of `instantiate`: the initial owner, or `None` to default to the
/// instantiating caller.
#[derive(Debug)]
pub struct InstantiateMsg {
    /// The owner of the contract who can execute value changes.
    /// If not set, then it will be the instantiator.
    pub owner: Option<String>,
}

impl View for InstantiateMsg {
    type V = Option<Seq<char>>;

    open spec fn view(&self) -> Option<Seq<char>> {
        match self.owner {
            Some(o) => Some(o@),
            None => None,
        }
    }
}

/// The two state transitions accepted by `execute`.
#[derive(Debug)]
pub enum ExecuteMsg {
    /// Change the owner.
    SetOwner {
        /// The new owner identity.
        owner: String,
    },
    /// Set the price.
    SetPrice {
        /// The new price value, as the decimal's string form.
        value: String,
        /// Optional timestamp for the price, independent of block time,
        /// in nanoseconds.
        timestamp: Option<u64>,
    },
}

/// Mathematical image of an [`ExecuteMsg`].
#[verifier::ext_equal]
pub ghost enum ExecuteMsgView {
    SetOwner { owner: Seq<char> },
    SetPrice { value: Seq<char>, timestamp: Option<u64> },
}

impl View for ExecuteMsg {
    type V = ExecuteMsgView;

    open spec fn view(&self) -> ExecuteMsgView {
        match self {
            ExecuteMsg::SetOwner { owner } => ExecuteMsgView::SetOwner { owner: owner@ },
            ExecuteMsg::SetPrice { value, timestamp } => ExecuteMsgView::SetPrice {
                value: value@,
                timestamp: *timestamp,
            },
        }
    }
}

/// The two read operations accepted by `query`.
#[derive(Debug)]
pub enum QueryMsg {
    /// Get the current price.
    Price {},
    /// Get the owner.
    Owner {},
}

/// Input of `migrate`; carries nothing.
#[derive(Debug)]
pub struct MigrateMsg {}

/// Height and time of the block being processed, as the host reports them.
/// Authoritative: never supplied by an ordinary caller.
#[derive(Debug, PartialEq, Eq)]
pub struct BlockInfo {
    /// Height of the block.
    pub height: u64,
    /// Time of the block, in nanoseconds.
    pub time: u64,
    /// Identifier of the chain the block belongs to.
    pub chain_id: String,
}

/// Mathematical image of a [`BlockInfo`].
#[verifier::ext_equal]
pub ghost struct BlockInfoView {
    pub height: u64,
    pub time: u64,
    pub chain_id: Seq<char>,
}

impl View for BlockInfo {
    type V = BlockInfoView;

    open spec fn view(&self) -> BlockInfoView {
        BlockInfoView { height: self.height, time: self.time, chain_id: self.chain_id@ }
    }
}

impl Clone for BlockInfo {
    fn clone(&self) -> (r: Self)
        ensures
            r == *self,
    {
        BlockInfo { height: self.height, time: self.time, chain_id: self.chain_id.clone() }
    }
}

/// The latest published price: the value set via [`ExecuteMsg::SetPrice`],
/// the block context captured by the host at the moment of that call, and
/// the optional caller-supplied timestamp, stored verbatim.
#[derive(Debug, PartialEq, Eq)]
pub struct Price {
    /// The price value set via `ExecuteMsg::SetPrice`.
    pub value: String,
    /// The block info when this price was set.
    pub block_info: BlockInfo,
    /// Optional timestamp for the price, independent of `block_info.time`,
    /// in nanoseconds.
    pub timestamp: Option<u64>,
}

/// Mathematical image of a [`Price`].
#[verifier::ext_equal]
pub ghost struct PriceView {
    pub value: Seq<char>,
    pub block_info: BlockInfoView,
    pub timestamp: Option<u64>,
}

impl View for Price {
    type V = PriceView;

    open spec fn view(&self) -> PriceView {
        PriceView {
            value: self.value@,
            block_info: self.block_info@,
            timestamp: self.timestamp,
        }
    }
}

impl Clone for Price {
    fn clone(&self) -> (r: Self)
        ensures
            r == *self,
    {
        Price {
            value: self.value.clone(),
            block_info: self.block_info.clone(),
            timestamp: self.timestamp,
        }
    }
}

} // verus!

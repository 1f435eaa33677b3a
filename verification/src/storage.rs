//! The durable state: two named slots, `owner` and `price`, each holding
//! at most one value, plus the contract version metadata consulted by
//! migration.
//!
//! The host owns the durable bytes; each operation receives the decoded
//! slots, mutates them, and hands them back for the host to persist
//! atomically. Nothing is cached across invocations.

use vstd::prelude::*;
use crate::msg::{Price, PriceView};

verus! {

/// The (name, version) metadata pair tracked for migration checks.
#[derive(Debug, PartialEq, Eq)]
pub struct ContractVersion {
    /// The contract name the stored state belongs to.
    pub contract: String,
    /// The semantic version string last recorded.
    pub version: String,
}

/// Mathematical image of a [`ContractVersion`].
#[verifier::ext_equal]
pub ghost struct ContractVersionView {
    pub contract: Seq<char>,
    pub version: Seq<char>,
}

impl View for ContractVersion {
    type V = ContractVersionView;

    open spec fn view(&self) -> ContractVersionView {
        ContractVersionView { contract: self.contract@, version: self.version@ }
    }
}

impl Clone for ContractVersion {
    fn clone(&self) -> (r: Self)
        ensures
            r == *self,
    {
        ContractVersion { contract: self.contract.clone(), version: self.version.clone() }
    }
}

/// The two durable slots and the version metadata, as one value.
#[derive(Debug)]
pub struct OracleStorage {
    /// The identity authorized to perform mutating operations; absent only
    /// before instantiation.
    pub owner: Option<String>,
    /// The latest published price; absent until the first `SetPrice`.
    pub price: Option<Price>,
    /// The tracked contract name and version; absent only before
    /// instantiation.
    pub contract: Option<ContractVersion>,
}

/// Mathematical image of an [`OracleStorage`].
#[verifier::ext_equal]
pub ghost struct StorageView {
    pub owner: Option<Seq<char>>,
    pub price: Option<PriceView>,
    pub contract: Option<ContractVersionView>,
}

/// The view of an optional owner slot.
pub open spec fn opt_string_view(o: Option<String>) -> Option<Seq<char>> {
    match o {
        Some(s) => Some(s@),
        None => None,
    }
}

impl View for OracleStorage {
    type V = StorageView;

    open spec fn view(&self) -> StorageView {
        StorageView {
            owner: opt_string_view(self.owner),
            price: match self.price {
                Some(p) => Some(p@),
                None => None,
            },
            contract: match self.contract {
                Some(c) => Some(c@),
                None => None,
            },
        }
    }
}

impl OracleStorage {
    /// Fresh storage with every slot empty, as the host presents it before
    /// instantiation.
    pub fn new() -> (s: Self)
        ensures
            s@.owner is None,
            s@.price is None,
            s@.contract is None,
    {
        OracleStorage { owner: None, price: None, contract: None }
    }
}

} // verus!

//! The failures the lifecycle operations can report. Every one of them is
//! a logical rejection: the invocation aborts and the host discards any
//! storage change.

use vstd::prelude::*;

verus! {

/// A typed failure of one of the lifecycle operations.
#[derive(Debug, PartialEq, Eq)]
pub enum OracleError {
    /// The caller of a mutating operation is not the stored owner; carries
    /// both identities for diagnostics.
    NotOwner { owner: String, caller: String },
    /// A slot that the operation needs was never written.
    NotFound,
    /// Migration found state recorded under another contract name.
    MismatchedContractName { old_name: String, new_name: String },
    /// Migration would move from a newer to an older version.
    MigrateDowngrade { old_version: String, new_version: String },
    /// The recorded contract version is not a semantic version.
    OldVersionUnparseable,
    /// This contract's own version is not a semantic version.
    NewVersionUnparseable,
}

/// Mathematical image of an [`OracleError`].
#[verifier::ext_equal]
pub ghost enum ErrorView {
    NotOwner { owner: Seq<char>, caller: Seq<char> },
    NotFound,
    MismatchedContractName { old_name: Seq<char>, new_name: Seq<char> },
    MigrateDowngrade { old_version: Seq<char>, new_version: Seq<char> },
    OldVersionUnparseable,
    NewVersionUnparseable,
}

impl View for OracleError {
    type V = ErrorView;

    open spec fn view(&self) -> ErrorView {
        match self {
            OracleError::NotOwner { owner, caller } => ErrorView::NotOwner {
                owner: owner@,
                caller: caller@,
            },
            OracleError::NotFound => ErrorView::NotFound,
            OracleError::MismatchedContractName { old_name, new_name } => {
                ErrorView::MismatchedContractName { old_name: old_name@, new_name: new_name@ }
            },
            OracleError::MigrateDowngrade { old_version, new_version } => {
                ErrorView::MigrateDowngrade {
                    old_version: old_version@,
                    new_version: new_version@,
                }
            },
            OracleError::OldVersionUnparseable => ErrorView::OldVersionUnparseable,
            OracleError::NewVersionUnparseable => ErrorView::NewVersionUnparseable,
        }
    }
}

} // verus!

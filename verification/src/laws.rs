//! Laws of the lifecycle state machine, stated over the mathematical
//! transitions that the executable operations are proved to implement.

use vstd::prelude::*;
use crate::error::ErrorView;
use crate::lifecycle::{
    spec_contract_name, spec_contract_version, spec_execute, spec_migrate, spec_query,
    QueryAnswerView,
};
use crate::msg::{BlockInfoView, ExecuteMsgView, PriceView, QueryMsg};
use crate::storage::{ContractVersionView, StorageView};
use crate::version::{sem_newer, sem_parse_ok};

verus! {

/// Law: with an owner stored, a mutating operation succeeds exactly when
/// the caller is that owner; any other caller is turned away with the two
/// identities, and a failed operation leaves the state unchanged.
pub proof fn lemma_mutating_requires_owner(
    s: StorageView,
    block: BlockInfoView,
    caller: Seq<char>,
    msg: ExecuteMsgView,
)
    requires
        s.owner is Some,
    ensures
        spec_execute(s, block, caller, msg).1 is Ok <==> s.owner == Some(caller),
        spec_execute(s, block, caller, msg).1 is Err ==> spec_execute(s, block, caller, msg).0
            == s,
        s.owner matches Some(o) ==> (o != caller ==> spec_execute(s, block, caller, msg).1
            == Err::<(), ErrorView>(ErrorView::NotOwner { owner: o, caller })),
{
}

/// Law: setting the owner twice to the same identity yields the same final
/// state as setting it once, whoever makes the second call and whether or
/// not it is authorized.
pub proof fn lemma_set_owner_idempotent(
    s: StorageView,
    b1: BlockInfoView,
    b2: BlockInfoView,
    c1: Seq<char>,
    c2: Seq<char>,
    new_owner: Seq<char>,
)
    requires
        spec_execute(s, b1, c1, ExecuteMsgView::SetOwner { owner: new_owner }).1 is Ok,
    ensures
        spec_execute(s, b1, c1, ExecuteMsgView::SetOwner { owner: new_owner }).0.owner == Some(
            new_owner,
        ),
        spec_execute(
            spec_execute(s, b1, c1, ExecuteMsgView::SetOwner { owner: new_owner }).0,
            b2,
            c2,
            ExecuteMsgView::SetOwner { owner: new_owner },
        ).0 == spec_execute(s, b1, c1, ExecuteMsgView::SetOwner { owner: new_owner }).0,
{
    let s1 = spec_execute(s, b1, c1, ExecuteMsgView::SetOwner { owner: new_owner }).0;
    let s2 = spec_execute(s1, b2, c2, ExecuteMsgView::SetOwner { owner: new_owner }).0;
    assert(s2 =~= s1);
}

/// Law: a price update replaces the stored record wholesale. After two
/// updates of which the second succeeds, the stored record is built from
/// the second call's value, block info and timestamp alone; nothing of the
/// first remains.
pub proof fn lemma_set_price_replaces(
    s: StorageView,
    b1: BlockInfoView,
    b2: BlockInfoView,
    c1: Seq<char>,
    c2: Seq<char>,
    v1: Seq<char>,
    t1: Option<u64>,
    v2: Seq<char>,
    t2: Option<u64>,
)
    requires
        spec_execute(
            spec_execute(s, b1, c1, ExecuteMsgView::SetPrice { value: v1, timestamp: t1 }).0,
            b2,
            c2,
            ExecuteMsgView::SetPrice { value: v2, timestamp: t2 },
        ).1 is Ok,
    ensures
        spec_execute(
            spec_execute(s, b1, c1, ExecuteMsgView::SetPrice { value: v1, timestamp: t1 }).0,
            b2,
            c2,
            ExecuteMsgView::SetPrice { value: v2, timestamp: t2 },
        ).0.price == Some(PriceView { value: v2, block_info: b2, timestamp: t2 }),
{
}

/// Law: querying the price reports `NotFound` exactly as long as no price
/// was ever stored, and right after any successful `SetPrice` it returns
/// the record that call stored: the caller's value and timestamp under the
/// host's block info.
pub proof fn lemma_price_query(
    s: StorageView,
    block: BlockInfoView,
    caller: Seq<char>,
    value: Seq<char>,
    timestamp: Option<u64>,
)
    ensures
        s.price is None ==> spec_query(s, QueryMsg::Price {}) == Err::<
            QueryAnswerView,
            ErrorView,
        >(ErrorView::NotFound),
        s.price matches Some(p) ==> spec_query(s, QueryMsg::Price {}) == Ok::<
            QueryAnswerView,
            ErrorView,
        >(QueryAnswerView::Price(p)),
        spec_execute(s, block, caller, ExecuteMsgView::SetPrice { value, timestamp }).1 is Ok
            ==> spec_query(
            spec_execute(s, block, caller, ExecuteMsgView::SetPrice { value, timestamp }).0,
            QueryMsg::Price {},
        ) == Ok::<QueryAnswerView, ErrorView>(
            QueryAnswerView::Price(PriceView { value, block_info: block, timestamp }),
        ),
{
}

/// Law: with both version strings parseable, migration rejects a foreign
/// contract name whatever the version ordering, rejects a version
/// downgrade, and otherwise succeeds, touching neither owner nor price
/// and recording the current name and version.
pub proof fn lemma_migrate_guards(s: StorageView)
    requires
        s.contract matches Some(cv) && sem_parse_ok(cv.version) && sem_parse_ok(
            spec_contract_version(),
        ),
    ensures
        s.contract->0.contract != spec_contract_name() ==> spec_migrate(s).1 == Err::<
            (),
            ErrorView,
        >(ErrorView::MismatchedContractName {
            old_name: s.contract->0.contract,
            new_name: spec_contract_name(),
        }),
        s.contract->0.contract == spec_contract_name() && sem_newer(
            s.contract->0.version,
            spec_contract_version(),
        ) ==> spec_migrate(s).1 == Err::<(), ErrorView>(ErrorView::MigrateDowngrade {
            old_version: s.contract->0.version,
            new_version: spec_contract_version(),
        }),
        s.contract->0.contract == spec_contract_name() && !sem_newer(
            s.contract->0.version,
            spec_contract_version(),
        ) ==> spec_migrate(s).1 is Ok && spec_migrate(s).0 == (StorageView {
            contract: Some(
                ContractVersionView {
                    contract: spec_contract_name(),
                    version: spec_contract_version(),
                },
            ),
            ..s
        }),
{
}

} // verus!

//! The four lifecycle operations: initialize, execute a state transition,
//! read state, and migrate version metadata.
//!
//! Each operation takes the decoded durable state and the host context as
//! plain values, applies the authorization or version guard where one is
//! due, and returns the structured outcome. `spec_instantiate`,
//! `spec_execute`, `spec_query` and `spec_migrate` are the mathematical
//! transitions; each executable operation is proved to implement its
//! transition exactly.

use vstd::prelude::*;
use crate::error::{ErrorView, OracleError};
use crate::msg::{
    BlockInfo, BlockInfoView, ExecuteMsg, ExecuteMsgView, InstantiateMsg, MigrateMsg, Price,
    PriceView, QueryMsg,
};
use crate::response::{
    attr, response_one_event, Attribute, AttributeView, EventView, Response, ResponseView,
};
use crate::storage::{ContractVersion, ContractVersionView, OracleStorage, StorageView};
use crate::version::{check_versions, sem_newer, sem_parse_ok, VersionCheck};

verus! {

/// The name this contract records at instantiation and requires back at
/// migration.
pub open spec fn spec_contract_name() -> Seq<char> {
    "simple-oracle"@
}

/// The version this contract records at instantiation and migrates to.
pub open spec fn spec_contract_version() -> Seq<char> {
    "0.1.0"@
}

/// The contract name, as a value the host can store.
pub fn contract_name() -> (s: &'static str)
    ensures
        s@ == spec_contract_name(),
{
    "simple-oracle"
}

/// The contract version, as a value the host can store.
pub fn contract_version() -> (s: &'static str)
    ensures
        s@ == spec_contract_version(),
{
    "0.1.0"
}

/// The owner recorded at instantiation: the supplied one, or the
/// instantiating caller where none was supplied.
pub open spec fn spec_initial_owner(sender: Seq<char>, owner_msg: Option<Seq<char>>) -> Seq<char> {
    match owner_msg {
        Some(o) => o,
        None => sender,
    }
}

/// The transition `instantiate` implements: record the contract metadata
/// and the initial owner; the price slot is untouched.
pub open spec fn spec_instantiate(
    s: StorageView,
    sender: Seq<char>,
    owner_msg: Option<Seq<char>>,
) -> StorageView {
    StorageView {
        owner: Some(spec_initial_owner(sender, owner_msg)),
        price: s.price,
        contract: Some(
            ContractVersionView {
                contract: spec_contract_name(),
                version: spec_contract_version(),
            },
        ),
    }
}

/// The event `instantiate` emits.
pub open spec fn spec_instantiate_response(owner: Seq<char>) -> ResponseView {
    ResponseView {
        events: seq![
            EventView {
                ty: "instantiation"@,
                attributes: seq![
                    AttributeView { key: "owner"@, value: owner },
                    AttributeView { key: "contract_name"@, value: spec_contract_name() },
                    AttributeView { key: "contract_version"@, value: spec_contract_version() },
                ],
            },
        ],
    }
}

/// The authorization guard: the caller may mutate exactly when it equals
/// the stored owner; an absent owner surfaces as `NotFound`.
pub open spec fn spec_authorize(owner: Option<Seq<char>>, caller: Seq<char>) -> Result<
    (),
    ErrorView,
> {
    match owner {
        None => Err(ErrorView::NotFound),
        Some(o) => if o == caller {
            Ok(())
        } else {
            Err(ErrorView::NotOwner { owner: o, caller })
        },
    }
}

/// The transition `execute` implements: guard, then either replace the
/// owner or replace the price record wholesale, stamping it with the
/// host's block info.
pub open spec fn spec_execute(
    s: StorageView,
    block: BlockInfoView,
    sender: Seq<char>,
    msg: ExecuteMsgView,
) -> (StorageView, Result<(), ErrorView>) {
    match spec_authorize(s.owner, sender) {
        Err(e) => (s, Err(e)),
        Ok(_) => match msg {
            ExecuteMsgView::SetOwner { owner } => (
                StorageView { owner: Some(owner), price: s.price, contract: s.contract },
                Ok(()),
            ),
            ExecuteMsgView::SetPrice { value, timestamp } => (
                StorageView {
                    owner: s.owner,
                    price: Some(PriceView { value, block_info: block, timestamp }),
                    contract: s.contract,
                },
                Ok(()),
            ),
        },
    }
}

/// The event a successful `execute` emits.
pub open spec fn spec_execute_response(msg: ExecuteMsgView) -> ResponseView {
    match msg {
        ExecuteMsgView::SetOwner { owner } => ResponseView {
            events: seq![
                EventView {
                    ty: "set-owner"@,
                    attributes: seq![AttributeView { key: "owner"@, value: owner }],
                },
            ],
        },
        ExecuteMsgView::SetPrice { value, timestamp: _ } => ResponseView {
            events: seq![
                EventView {
                    ty: "set-price"@,
                    attributes: seq![AttributeView { key: "value"@, value: value }],
                },
            ],
        },
    }
}

/// What a query returns on success.
#[derive(Debug, PartialEq, Eq)]
pub enum QueryAnswer {
    /// The stored owner identity.
    Owner(String),
    /// The stored price record.
    Price(Price),
}

/// Mathematical image of a [`QueryAnswer`].
#[verifier::ext_equal]
pub ghost enum QueryAnswerView {
    Owner(Seq<char>),
    Price(PriceView),
}

impl View for QueryAnswer {
    type V = QueryAnswerView;

    open spec fn view(&self) -> QueryAnswerView {
        match self {
            QueryAnswer::Owner(o) => QueryAnswerView::Owner(o@),
            QueryAnswer::Price(p) => QueryAnswerView::Price(p@),
        }
    }
}

/// The read `query` implements: surface the requested slot, or `NotFound`
/// where it was never written.
pub open spec fn spec_query(s: StorageView, msg: QueryMsg) -> Result<QueryAnswerView, ErrorView> {
    match msg {
        QueryMsg::Owner {} => match s.owner {
            Some(o) => Ok(QueryAnswerView::Owner(o)),
            None => Err(ErrorView::NotFound),
        },
        QueryMsg::Price {} => match s.price {
            Some(p) => Ok(QueryAnswerView::Price(p)),
            None => Err(ErrorView::NotFound),
        },
    }
}

/// The transition `migrate` implements: parse the recorded and the current
/// version, reject a foreign contract name or a downgrade, and otherwise
/// update only the version metadata. Equal versions are allowed.
pub open spec fn spec_migrate(s: StorageView) -> (StorageView, Result<(), ErrorView>) {
    match s.contract {
        None => (s, Err(ErrorView::NotFound)),
        Some(cv) => if !sem_parse_ok(cv.version) {
            (s, Err(ErrorView::OldVersionUnparseable))
        } else if !sem_parse_ok(spec_contract_version()) {
            (s, Err(ErrorView::NewVersionUnparseable))
        } else if cv.contract != spec_contract_name() {
            (
                s,
                Err(ErrorView::MismatchedContractName {
                    old_name: cv.contract,
                    new_name: spec_contract_name(),
                }),
            )
        } else if sem_newer(cv.version, spec_contract_version()) {
            (
                s,
                Err(ErrorView::MigrateDowngrade {
                    old_version: cv.version,
                    new_version: spec_contract_version(),
                }),
            )
        } else {
            (
                StorageView {
                    owner: s.owner,
                    price: s.price,
                    contract: Some(
                        ContractVersionView {
                            contract: spec_contract_name(),
                            version: spec_contract_version(),
                        },
                    ),
                },
                Ok(()),
            )
        },
    }
}

/// The event a successful `migrate` emits.
pub open spec fn spec_migrate_response(old_name: Seq<char>, old_version: Seq<char>) -> ResponseView {
    ResponseView {
        events: seq![
            EventView {
                ty: "migration"@,
                attributes: seq![
                    AttributeView { key: "old_contract_name"@, value: old_name },
                    AttributeView { key: "old_contract_version"@, value: old_version },
                    AttributeView { key: "new_contract_name"@, value: spec_contract_name() },
                    AttributeView { key: "new_contract_version"@, value: spec_contract_version() },
                ],
            },
        ],
    }
}

/// Initialize, exactly once at contract creation: record the contract
/// name and version, and the owner (the supplied one, else the caller).
/// Never fails; the host validates a supplied owner string beforehand.
pub fn instantiate(store: &mut OracleStorage, sender: String, msg: InstantiateMsg) -> (r: Response)
    ensures
        final(store)@ == spec_instantiate(old(store)@, sender@, msg@),
        r@ == spec_instantiate_response(spec_initial_owner(sender@, msg@)),
{
    let owner: String = match msg.owner {
        Some(o) => o,
        None => sender,
    };
    store.contract = Some(
        ContractVersion {
            contract: contract_name().to_owned(),
            version: contract_version().to_owned(),
        },
    );
    let mut attributes: Vec<Attribute> = Vec::new();
    attributes.push(attr("owner", owner.clone()));
    attributes.push(attr("contract_name", contract_name().to_owned()));
    attributes.push(attr("contract_version", contract_version().to_owned()));
    let r = response_one_event("instantiation", attributes);
    store.owner = Some(owner);
    proof {
        assert(store@ =~= spec_instantiate(old(store)@, sender@, msg@));
        assert(r@.events[0].attributes =~= spec_instantiate_response(
            spec_initial_owner(sender@, msg@),
        ).events[0].attributes);
        assert(r@ =~= spec_instantiate_response(spec_initial_owner(sender@, msg@)));
    }
    r
}

/// The authorization guard: succeeds exactly when the caller equals the
/// stored owner; otherwise reports both identities. An absent owner
/// surfaces as `NotFound`.
pub fn authorize(caller: &String, stored_owner: &Option<String>) -> (r: Result<(), OracleError>)
    ensures
        (match r {
            Ok(_) => Ok::<(), ErrorView>(()),
            Err(e) => Err::<(), ErrorView>(e@),
        }) == spec_authorize(crate::storage::opt_string_view(*stored_owner), caller@),
{
    match stored_owner {
        None => Err(OracleError::NotFound),
        Some(owner) => if *caller == *owner {
            Ok(())
        } else {
            Err(OracleError::NotOwner { owner: owner.clone(), caller: caller.clone() })
        },
    }
}

/// Execute a mutating transition. The guard runs first; on its failure
/// nothing changes. `SetOwner` replaces the owner wholesale; `SetPrice`
/// replaces the price record wholesale, stamping it with the host's block
/// info and storing the caller's optional timestamp verbatim.
pub fn execute(
    store: &mut OracleStorage,
    block: BlockInfo,
    sender: String,
    msg: ExecuteMsg,
) -> (r: Result<Response, OracleError>)
    ensures
        final(store)@ == spec_execute(old(store)@, block@, sender@, msg@).0,
        (match r {
            Ok(_) => Ok::<(), ErrorView>(()),
            Err(e) => Err::<(), ErrorView>(e@),
        }) == spec_execute(old(store)@, block@, sender@, msg@).1,
        r matches Ok(resp) ==> resp@ == spec_execute_response(msg@),
{
    match authorize(&sender, &store.owner) {
        Err(e) => Err(e),
        Ok(_) => match msg {
            ExecuteMsg::SetOwner { owner: new_owner } => {
                let mut attributes: Vec<Attribute> = Vec::new();
                attributes.push(attr("owner", new_owner.clone()));
                let resp = response_one_event("set-owner", attributes);
                store.owner = Some(new_owner);
                proof {
                    assert(store@ =~= spec_execute(old(store)@, block@, sender@, msg@).0);
                    assert(resp@.events[0].attributes =~= spec_execute_response(
                        msg@,
                    ).events[0].attributes);
                    assert(resp@ =~= spec_execute_response(msg@));
                }
                Ok(resp)
            },
            ExecuteMsg::SetPrice { value, timestamp } => {
                let mut attributes: Vec<Attribute> = Vec::new();
                attributes.push(attr("value", value.clone()));
                let resp = response_one_event("set-price", attributes);
                store.price = Some(Price { value, block_info: block, timestamp });
                proof {
                    assert(store@ =~= spec_execute(old(store)@, block@, sender@, msg@).0);
                    assert(resp@.events[0].attributes =~= spec_execute_response(
                        msg@,
                    ).events[0].attributes);
                    assert(resp@ =~= spec_execute_response(msg@));
                }
                Ok(resp)
            },
        },
    }
}

/// Read state. Unauthenticated: no guard runs. An unwritten slot is
/// reported as `NotFound`, a routine condition for the price before the
/// first `SetPrice`.
pub fn query(store: &OracleStorage, msg: QueryMsg) -> (r: Result<QueryAnswer, OracleError>)
    ensures
        (match r {
            Ok(a) => Ok::<QueryAnswerView, ErrorView>(a@),
            Err(e) => Err::<QueryAnswerView, ErrorView>(e@),
        }) == spec_query(store@, msg),
{
    match msg {
        QueryMsg::Owner {} => match &store.owner {
            Some(o) => Ok(QueryAnswer::Owner(o.clone())),
            None => Err(OracleError::NotFound),
        },
        QueryMsg::Price {} => match &store.price {
            Some(p) => Ok(QueryAnswer::Price(p.clone())),
            None => Err(OracleError::NotFound),
        },
    }
}

/// Migrate the version metadata: parse the recorded and the current
/// version as semantic versions, reject a foreign contract name or a
/// downgrade, and otherwise record the current name and version. Equal
/// versions succeed as a no-op re-migration. Owner and price are never
/// touched. Authorization is the host upgrade mechanism's concern, not
/// re-checked here.
pub fn migrate(store: &mut OracleStorage, _msg: MigrateMsg) -> (r: Result<Response, OracleError>)
    ensures
        final(store)@ == spec_migrate(old(store)@).0,
        (match r {
            Ok(_) => Ok::<(), ErrorView>(()),
            Err(e) => Err::<(), ErrorView>(e@),
        }) == spec_migrate(old(store)@).1,
        r matches Ok(resp) ==> old(store)@.contract matches Some(cv) && resp@
            == spec_migrate_response(cv.contract, cv.version),
        (old(store)@.contract matches Some(cv) && cv.contract == spec_contract_name()
            && cv.version == spec_contract_version() && sem_parse_ok(cv.version)) ==> r is Ok,
{
    match &store.contract {
        None => Err(OracleError::NotFound),
        Some(cv) => {
            let old_name = cv.contract.clone();
            let old_version = cv.version.clone();
            match check_versions(old_version.as_str(), contract_version()) {
                VersionCheck::OldInvalid => Err(OracleError::OldVersionUnparseable),
                VersionCheck::NewInvalid => Err(OracleError::NewVersionUnparseable),
                VersionCheck::Comparable { downgrade } => {
                    let new_name = contract_name().to_owned();
                    if old_name != new_name {
                        Err(OracleError::MismatchedContractName { old_name, new_name })
                    } else if downgrade {
                        Err(OracleError::MigrateDowngrade {
                            old_version,
                            new_version: contract_version().to_owned(),
                        })
                    } else {
                        store.contract = Some(
                            ContractVersion {
                                contract: contract_name().to_owned(),
                                version: contract_version().to_owned(),
                            },
                        );
                        let mut attributes: Vec<Attribute> = Vec::new();
                        attributes.push(attr("old_contract_name", old_name));
                        attributes.push(attr("old_contract_version", old_version));
                        attributes.push(attr("new_contract_name", contract_name().to_owned()));
                        attributes.push(attr("new_contract_version", contract_version().to_owned()));
                        let resp = response_one_event("migration", attributes);
                        proof {
                            assert(store@ =~= spec_migrate(old(store)@).0);
                            let cv0 = old(store)@.contract->0;
                            assert(resp@.events[0].attributes =~= spec_migrate_response(
                                cv0.contract,
                                cv0.version,
                            ).events[0].attributes);
                            assert(resp@ =~= spec_migrate_response(cv0.contract, cv0.version));
                        }
                        Ok(resp)
                    }
                },
            }
        },
    }
}

} // verus!

use simple_oracle::error::OracleError;
use simple_oracle::lifecycle::{execute, instantiate, query, QueryAnswer};
use simple_oracle::msg::{BlockInfo, ExecuteMsg, InstantiateMsg, Price, QueryMsg};
use simple_oracle::storage::OracleStorage;

/// The block info the host reports at the start of each test.
fn initial_block() -> BlockInfo {
    BlockInfo { height: 12345, time: 1_571_797_419_879_305_533, chain_id: String::from("testing") }
}

/// Storage as it stands after instantiation by the caller "owner" with no
/// explicit owner in the message.
fn new_oracle() -> OracleStorage {
    let mut store = OracleStorage::new();
    instantiate(&mut store, String::from("owner"), InstantiateMsg { owner: None });
    store
}

fn query_owner(store: &OracleStorage) -> Result<String, OracleError> {
    query(store, QueryMsg::Owner {}).map(|answer| match answer {
        QueryAnswer::Owner(o) => o,
        QueryAnswer::Price(_) => panic!("owner query answered with a price"),
    })
}

fn query_price(store: &OracleStorage) -> Result<Price, OracleError> {
    query(store, QueryMsg::Price {}).map(|answer| match answer {
        QueryAnswer::Price(p) => p,
        QueryAnswer::Owner(_) => panic!("price query answered with an owner"),
    })
}

fn set_price(value: &str, timestamp: Option<u64>) -> ExecuteMsg {
    ExecuteMsg::SetPrice { value: String::from(value), timestamp }
}

#[test]
fn auth() {
    let mut store = new_oracle();
    let block = initial_block();

    // first some sanity checks that everything is setup correctly
    let owner = query_owner(&store).unwrap();
    let non_owner = String::from("non_owner");

    assert_eq!(owner, "owner");
    assert_ne!(owner, non_owner);

    // try to set a price as the non-owner, expect failure
    execute(&mut store, block.clone(), non_owner.clone(), set_price("1.23", None)).unwrap_err();

    // try to set a price as the owner, expect success
    execute(&mut store, block.clone(), owner.clone(), set_price("1.23", None)).unwrap();

    // try to change the owner as the non-owner, expect failure
    execute(
        &mut store,
        block.clone(),
        non_owner.clone(),
        ExecuteMsg::SetOwner { owner: non_owner.clone() },
    )
    .unwrap_err();

    // try to change the owner as the owner, expect success
    execute(
        &mut store,
        block.clone(),
        owner.clone(),
        ExecuteMsg::SetOwner { owner: non_owner.clone() },
    )
    .unwrap();

    // try to set a price as the old owner, expect failure
    execute(&mut store, block.clone(), owner.clone(), set_price("1.23", None)).unwrap_err();

    // try to set a price as the new owner, expect success
    execute(&mut store, block, non_owner, set_price("1.23", None)).unwrap();
}

#[test]
fn price() {
    let mut store = new_oracle();
    let owner = String::from("owner");
    let mut block = initial_block();

    // try to get initial price - will fail since none is set
    query_price(&store).unwrap_err();

    // Set a price
    execute(&mut store, block.clone(), owner.clone(), set_price("1.23", None)).unwrap();

    // confirm it's what we expect
    let price_1 = query_price(&store).unwrap();
    assert_eq!(price_1.value, "1.23");

    // Set a new price in the same block
    execute(&mut store, block.clone(), owner.clone(), set_price("3.21", None)).unwrap();

    // confirm it's what we expect
    let price_2 = query_price(&store).unwrap();
    assert_eq!(price_2.value, "3.21");

    // confirm that the block hasn't changed
    assert_eq!(price_2.block_info.height, price_1.block_info.height);
    assert_eq!(price_2.block_info.time, price_1.block_info.time);

    // jump a block (and some time in nanoseconds, which would naturally happen in the real world)
    block.height += 1;
    block.time += 7_000_000_000;

    // Set a price in the new block
    execute(&mut store, block, owner, set_price("4.2", None)).unwrap();

    // confirm it's what we expect
    let price_3 = query_price(&store).unwrap();
    assert_eq!(price_3.value, "4.2");

    // and that the block has moved forward
    assert!(price_3.block_info.height > price_2.block_info.height);
    assert!(price_3.block_info.time > price_2.block_info.time);
}

#[test]
fn timestamp() {
    let mut store = new_oracle();
    let owner = String::from("owner");

    // Get block info
    let block_info_1 = initial_block();

    // Set a price
    execute(&mut store, block_info_1.clone(), owner.clone(), set_price("1.23", None)).unwrap();

    // confirm the block info comes across
    let price_1 = query_price(&store).unwrap();
    assert_eq!(price_1.block_info, block_info_1);
    assert_eq!(price_1.timestamp, None);

    // Set a new price in the same block but with a custom timestamp
    let timestamp_1 = block_info_1.time + 3_600_000_000_000;
    execute(
        &mut store,
        block_info_1.clone(),
        owner.clone(),
        set_price("1.23", Some(timestamp_1)),
    )
    .unwrap();

    // confirm the block info hasn't changed
    let price_2 = query_price(&store).unwrap();
    assert_eq!(price_2.block_info, block_info_1);

    // but the timestamp is different
    let price_2_timestamp = price_2.timestamp.unwrap();
    assert_eq!(price_2_timestamp, timestamp_1);
    assert!(price_2_timestamp > block_info_1.time);

    // jump a block (and some time in nanoseconds, which would naturally happen in the real world)
    let mut block_info_2 = block_info_1.clone();
    block_info_2.height += 1;
    block_info_2.time += 7_000_000_000;
    assert!(block_info_2.height > block_info_1.height);
    assert!(block_info_2.time > block_info_1.time);

    // Set a price in the new block, with our same timestamp
    execute(
        &mut store,
        block_info_2.clone(),
        owner.clone(),
        set_price("1.23", Some(timestamp_1)),
    )
    .unwrap();

    let price_3 = query_price(&store).unwrap();
    assert_eq!(price_3.block_info, block_info_2);
    assert_eq!(price_3.timestamp.unwrap(), timestamp_1);

    // jump another block (and some time in nanoseconds, which would naturally happen in the real world)
    let mut block_info_3 = block_info_2.clone();
    block_info_3.height += 1;
    block_info_3.time += 7_000_000_000;
    assert!(block_info_3.height > block_info_2.height);
    assert!(block_info_3.time > block_info_2.time);

    // Set a price in the new block, with a new timestamp too
    let timestamp_2 = timestamp_1 + 3_600_000_000_000;
    execute(
        &mut store,
        block_info_3.clone(),
        owner.clone(),
        set_price("1.23", Some(timestamp_2)),
    )
    .unwrap();
    let price_4 = query_price(&store).unwrap();
    assert_eq!(price_4.block_info, block_info_3);
    assert_eq!(price_4.timestamp.unwrap(), timestamp_2);

    // Note that it's possible for timestamp to be earlier than block time

    let timestamp_3 = block_info_1.time - 86_400_000_000_000;
    execute(&mut store, block_info_3.clone(), owner, set_price("1.23", Some(timestamp_3)))
        .unwrap();
    let price_5 = query_price(&store).unwrap();
    assert_eq!(price_5.block_info, block_info_3);
    assert_eq!(price_5.timestamp.unwrap(), timestamp_3);
}

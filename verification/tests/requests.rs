use etherscan::{parse_block_range, ConfigurationError, API, BASE_URL, ETHERSCANIO_API_TOKEN};

const ADDR: &str = "0xde0b295669a9fd93d5f28d9ec85e40f4cb697bae";
const CONTRACT: &str = "0x514910771af9ca656af840dff83e8264ecf986ca";
const HASH: &str = "0x40eb908387324f2b575b4879cd9d7188f69c8fc9d87c901b9e2daaea4b442170";

fn api() -> API {
    API::new("KEY")
}

#[test]
fn constants() {
    assert_eq!(BASE_URL, "https://api.etherscan.io/api");
    assert_eq!(ETHERSCANIO_API_TOKEN, "ETHERSCANIO_API_TOKEN");
}

#[test]
fn new_keeps_the_token() {
    assert_eq!(API::new("KEY").api_token(), "KEY");
    assert_eq!(API::new("").api_token(), "");
}

#[test]
fn new_from_env_takes_the_value_found() {
    let api = API::new_from_env(Some("FROM_ENV".to_string()));
    assert!(matches!(&api, Ok(a) if a.api_token() == "FROM_ENV"));
}

#[test]
fn new_from_env_without_a_value_is_a_configuration_error() {
    assert!(matches!(API::new_from_env(None), Err(ConfigurationError::MissingToken)));
}

#[test]
fn range_is_left_out_for_upper_bound_zero() {
    assert_eq!(parse_block_range(0, 0), "");
    assert_eq!(parse_block_range(5, 0), "");
    assert_eq!(parse_block_range(u64::MAX, 0), "");
}

#[test]
fn range_names_both_bounds_for_upper_bound_above_zero() {
    assert_eq!(parse_block_range(0, 1), "&startblock=0&endblock=1");
    assert_eq!(parse_block_range(100, 200), "&startblock=100&endblock=200");
    assert_eq!(parse_block_range(9, 3), "&startblock=9&endblock=3");
    assert_eq!(
        parse_block_range(u64::MAX, u64::MAX),
        "&startblock=18446744073709551615&endblock=18446744073709551615"
    );
}

#[test]
fn acc_balance_request() {
    assert_eq!(
        api().acc_balance(ADDR),
        "https://api.etherscan.io/api/?module=account&action=balance\
         &address=0xde0b295669a9fd93d5f28d9ec85e40f4cb697bae&tag=latest&apikey=KEY"
    );
}

#[test]
fn estimate_conf_time_for_gas_request() {
    assert_eq!(
        api().estimate_conf_time_for_gas(2_000_000_000),
        "https://api.etherscan.io/api?module=gastracker&action=gasestimate\
         &gasprice=2000000000&apikey=KEY"
    );
    assert_eq!(
        api().estimate_conf_time_for_gas(0),
        "https://api.etherscan.io/api?module=gastracker&action=gasestimate&gasprice=0&apikey=KEY"
    );
}

#[test]
fn gas_oracle_request() {
    assert_eq!(
        api().gas_oracle(),
        "https://api.etherscan.io/api?module=gastracker&action=gasoracle&apikey=KEY"
    );
}

#[test]
fn eth_price_request() {
    assert_eq!(
        api().eth_price(),
        "https://api.etherscan.io/api?module=stats&action=ethprice&apikey=KEY"
    );
}

#[test]
fn erc20_token_total_supply_request() {
    assert_eq!(
        api().erc20_token_total_supply(CONTRACT),
        "https://api.etherscan.io/api?module=stats&action=tokensupply\
         &contractaddress=0x514910771af9ca656af840dff83e8264ecf986ca&apikey=KEY"
    );
}

#[test]
fn erc20_token_balance_on_account_request() {
    assert_eq!(
        api().erc20_token_balance_on_account(ADDR, CONTRACT),
        "https://api.etherscan.io/api?module=account&action=tokenbalance\
         &contractaddress=0x514910771af9ca656af840dff83e8264ecf986ca\
         &address=0xde0b295669a9fd93d5f28d9ec85e40f4cb697bae&tag=latest&apikey=KEY"
    );
}

#[test]
fn txs_on_account_from_to_request() {
    assert_eq!(
        api().txs_on_account_from_to(ADDR, 10, 20),
        "https://api.etherscan.io/api?module=account&action=txlist\
         &address=0xde0b295669a9fd93d5f28d9ec85e40f4cb697bae\
         &startblock=10&endblock=20&sort=asc&apikey=KEY"
    );
}

#[test]
fn txs_on_account_request_has_no_range() {
    let uri = api().txs_on_account(ADDR);
    assert_eq!(
        uri,
        "https://api.etherscan.io/api?module=account&action=txlist\
         &address=0xde0b295669a9fd93d5f28d9ec85e40f4cb697bae&sort=asc&apikey=KEY"
    );
    assert_eq!(uri, api().txs_on_account_from_to(ADDR, 0, 0));
    assert_eq!(uri, api().txs_on_account_from_to(ADDR, 77, 0));
    assert!(!uri.contains("startblock"));
    assert!(!uri.contains("endblock"));
}

#[test]
fn internal_txs_on_account_from_to_request() {
    assert_eq!(
        api().internal_txs_on_account_from_to(ADDR, 0, 2702578),
        "https://api.etherscan.io/api?module=account&action=txlistinternal\
         &address=0xde0b295669a9fd93d5f28d9ec85e40f4cb697bae\
         &startblock=0&endblock=2702578&sort=asc&apikey=KEY"
    );
}

#[test]
fn internal_txs_on_account_request_has_no_range() {
    let uri = api().internal_txs_on_account(ADDR);
    assert_eq!(
        uri,
        "https://api.etherscan.io/api?module=account&action=txlistinternal\
         &address=0xde0b295669a9fd93d5f28d9ec85e40f4cb697bae&sort=asc&apikey=KEY"
    );
    assert_eq!(uri, api().internal_txs_on_account_from_to(ADDR, 3, 0));
}

#[test]
fn internal_txs_from_to_request() {
    assert_eq!(
        api().internal_txs_from_to(1, 2),
        "https://api.etherscan.io/api?module=account&action=txlistinternal\
         &startblock=1&endblock=2&page=1&offset=10&sort=asc&apikey=KEY"
    );
    assert_eq!(
        api().internal_txs_from_to(1, 0),
        "https://api.etherscan.io/api?module=account&action=txlistinternal\
         &page=1&offset=10&sort=asc&apikey=KEY"
    );
}

#[test]
fn internal_txs_by_tx_hash_request() {
    assert_eq!(
        api().internal_txs_by_tx_hash(HASH),
        "https://api.etherscan.io/api?module=account&action=txlistinternal\
         &txhash=0x40eb908387324f2b575b4879cd9d7188f69c8fc9d87c901b9e2daaea4b442170&apikey=KEY"
    );
}

#[test]
fn erc20_transfers_on_account_from_to_request() {
    assert_eq!(
        api().erc20_transfers_on_account_from_to(ADDR, 5, 6),
        "https://api.etherscan.io/api?module=account&action=tokentx\
         &address=0xde0b295669a9fd93d5f28d9ec85e40f4cb697bae\
         &startblock=5&endblock=6&sort=asc&apikey=KEY"
    );
}

#[test]
fn erc20_transfer_events_on_account_request_has_no_range() {
    let uri = api().erc20_transfer_events_on_account(ADDR);
    assert_eq!(
        uri,
        "https://api.etherscan.io/api?module=account&action=tokentx\
         &address=0xde0b295669a9fd93d5f28d9ec85e40f4cb697bae&sort=asc&apikey=KEY"
    );
    assert_eq!(uri, api().erc20_transfers_on_account_from_to(ADDR, 0, 0));
}

#[test]
fn erc20_transfers_on_account_by_contract_request() {
    assert_eq!(
        api().erc20_transfers_on_account_by_contract(ADDR, CONTRACT),
        "https://api.etherscan.io/api?module=account&action=tokentx\
         &contractaddress=0x514910771af9ca656af840dff83e8264ecf986ca\
         &address=0xde0b295669a9fd93d5f28d9ec85e40f4cb697bae&sort=asc&apikey=KEY"
    );
}

#[test]
fn erc271_transfers_on_account_from_to_request() {
    assert_eq!(
        api().erc271_transfers_on_account_from_to(ADDR, 5, 6),
        "https://api.etherscan.io/api?module=account&action=tokennfttx\
         &address=0xde0b295669a9fd93d5f28d9ec85e40f4cb697bae\
         &startblock=5&endblock=6&sort=asc&apikey=KEY"
    );
}

#[test]
fn erc271_transfers_on_account_request_has_no_range() {
    let uri = api().erc271_transfers_on_account(ADDR);
    assert_eq!(
        uri,
        "https://api.etherscan.io/api?module=account&action=tokennfttx\
         &address=0xde0b295669a9fd93d5f28d9ec85e40f4cb697bae&sort=asc&apikey=KEY"
    );
    assert_eq!(uri, api().erc271_transfers_on_account_from_to(ADDR, 0, 0));
}

#[test]
fn erc271_transfers_on_account_by_contract_request() {
    assert_eq!(
        api().erc271_transfers_on_account_by_contract(ADDR, CONTRACT),
        "https://api.etherscan.io/api?module=account&action=tokennfttx\
         &contractaddress=0x514910771af9ca656af840dff83e8264ecf986ca\
         &address=0xde0b295669a9fd93d5f28d9ec85e40f4cb697bae&sort=asc&apikey=KEY"
    );
}

#[test]
fn mined_blocks_by_account_request() {
    assert_eq!(
        api().mined_blocks_by_account(ADDR),
        "https://api.etherscan.io/api?module=account&action=getminedblocks\
         &address=0xde0b295669a9fd93d5f28d9ec85e40f4cb697bae&blocktype=blocks&apikey=KEY"
    );
}

#[test]
fn contract_execution_status_request() {
    assert_eq!(
        api().contract_execution_status(HASH),
        "https://api.etherscan.io/api?module=transaction&action=getstatus\
         &txhash=0x40eb908387324f2b575b4879cd9d7188f69c8fc9d87c901b9e2daaea4b442170&apikey=KEY"
    );
}

#[test]
fn tx_receipt_status_request() {
    assert_eq!(
        api().tx_receipt_status(HASH),
        "https://api.etherscan.io/api?module=transaction&action=gettxreceiptstatus\
         &txhash=0x40eb908387324f2b575b4879cd9d7188f69c8fc9d87c901b9e2daaea4b442170&apikey=KEY"
    );
}

#[test]
fn arguments_are_taken_as_they_are() {
    assert_eq!(
        api().acc_balance("not an address&x=1"),
        "https://api.etherscan.io/api/?module=account&action=balance\
         &address=not an address&x=1&tag=latest&apikey=KEY"
    );
}

use coinwatch::adapter::parse_response;
use coinwatch::refresh::refresh_plan;
use coinwatch::render::format_coins_at;
use coinwatch::store::{Address, ApiType, Coin, Coins, ConfigError, FetchError, ObservedActivity};

fn addr(s: &str) -> Address {
    Address {
        address: s.to_string(),
        balance: None,
        last_activity_timestamp: None,
    }
}

fn coin(name: &str, ticker: &str, api: ApiType, addresses: Vec<Address>) -> Coin {
    Coin {
        name: name.to_string(),
        ticker: ticker.to_string(),
        api,
        addresses,
    }
}

fn two_address_registry() -> Coins {
    let config = vec![coin(
        "Bitcoin",
        "BTC",
        ApiType::Chainz,
        vec![addr("a1"), addr("a2")],
    )];
    match Coins::load_initial(config) {
        Ok(c) => c,
        Err(_) => panic!("the configuration is well-formed"),
    }
}

#[test]
fn load_resets_observed_fields() {
    let config = vec![coin(
        "Bitcoin",
        "BTC",
        ApiType::Chainz,
        vec![Address {
            address: "a1".to_string(),
            balance: Some("9".to_string()),
            last_activity_timestamp: Some(1),
        }],
    )];
    let coins = match Coins::load_initial(config) {
        Ok(c) => c,
        Err(_) => panic!("the configuration is well-formed"),
    };
    assert_eq!(coins.coins[0].name, "Bitcoin");
    assert_eq!(coins.coins[0].addresses[0].address, "a1");
    assert_eq!(coins.coins[0].addresses[0].balance, None);
    assert_eq!(coins.coins[0].addresses[0].last_activity_timestamp, None);
}

#[test]
fn load_rejects_a_coin_without_addresses() {
    let config = vec![coin("Empty", "EMP", ApiType::Blnscan, vec![])];
    match Coins::load_initial(config) {
        Ok(_) => panic!("a coin without addresses must be rejected"),
        Err(e) => assert_eq!(e, ConfigError::EmptyAddressList),
    }
}

#[test]
fn apply_stores_both_observed_fields() {
    let mut coins = two_address_registry();
    coins.apply_result(
        0,
        0,
        ObservedActivity {
            balance: Some("1.5".to_string()),
            last_activity_timestamp: Some(1700000000),
        },
    );
    assert_eq!(coins.coins[0].addresses[0].balance, Some("1.5".to_string()));
    assert_eq!(
        coins.coins[0].addresses[0].last_activity_timestamp,
        Some(1700000000)
    );
}

#[test]
fn apply_absent_field_keeps_prior_value() {
    let mut coins = two_address_registry();
    coins.apply_result(
        0,
        0,
        ObservedActivity {
            balance: Some("2".to_string()),
            last_activity_timestamp: Some(5),
        },
    );
    coins.apply_result(
        0,
        0,
        ObservedActivity {
            balance: None,
            last_activity_timestamp: Some(9),
        },
    );
    assert_eq!(coins.coins[0].addresses[0].balance, Some("2".to_string()));
    assert_eq!(coins.coins[0].addresses[0].last_activity_timestamp, Some(9));
}

#[test]
fn failed_fetch_changes_nothing() {
    let mut coins = two_address_registry();
    coins.apply_result(
        0,
        0,
        ObservedActivity {
            balance: Some("3".to_string()),
            last_activity_timestamp: Some(7),
        },
    );
    coins.apply_outcome(0, 0, Err(FetchError::Transport));
    assert_eq!(coins.coins[0].addresses[0].balance, Some("3".to_string()));
    assert_eq!(coins.coins[0].addresses[0].last_activity_timestamp, Some(7));
}

#[test]
fn addresses_of_one_coin_are_independent() {
    let mut coins = two_address_registry();
    coins.apply_outcome(
        0,
        0,
        Ok(ObservedActivity {
            balance: Some("8".to_string()),
            last_activity_timestamp: Some(1700000000),
        }),
    );
    // The second address's fetch fails; the first keeps its values.
    coins.apply_outcome(0, 1, Err(FetchError::Status));
    let views = format_coins_at(&coins, 1700000061);
    assert_eq!(views[0].addresses[0].balance_display, "8BTC");
    assert_eq!(views[0].addresses[0].elapsed_display, "1 minute, 1 second");
    assert_eq!(views[0].addresses[1].balance_display, "?");
    assert_eq!(views[0].addresses[1].timestamp_display, "?");
    assert_eq!(views[0].addresses[1].address, "a2");
}

#[test]
fn full_pipeline_shows_parsed_observation() {
    let mut coins = two_address_registry();
    let outcome = parse_response(
        ApiType::Chainz,
        "{\"balance\": 1.5, \"lastBlockTimestamp\": 1700000000}",
    );
    coins.apply_outcome(0, 0, outcome);
    let views = format_coins_at(&coins, 1700000000);
    assert_eq!(views[0].addresses[0].balance_display, "1.5BTC");
    assert_eq!(views[0].addresses[0].timestamp_display, "2023-11-14 22:13:20");
}

#[test]
fn refresh_plan_walks_configuration_order() {
    let config = vec![
        coin("Bitcoin", "BTC", ApiType::Chainz, vec![addr("a1"), addr("a2")]),
        coin("Bln", "BLN", ApiType::Blnscan, vec![addr("b1")]),
    ];
    let coins = match Coins::load_initial(config) {
        Ok(c) => c,
        Err(_) => panic!("the configuration is well-formed"),
    };
    let plan = refresh_plan(&coins);
    assert_eq!(plan.len(), 3);
    assert_eq!((plan[0].coin_index, plan[0].address_index), (0, 0));
    assert_eq!((plan[1].coin_index, plan[1].address_index), (0, 1));
    assert_eq!((plan[2].coin_index, plan[2].address_index), (1, 0));
    assert_eq!(plan[0].api, ApiType::Chainz);
    assert_eq!(
        plan[0].url,
        "https://chainz.cryptoid.info/btc/api.dws?q=addressinfo&a=a1"
    );
    assert_eq!(plan[2].api, ApiType::Blnscan);
    assert_eq!(plan[2].url, "https://blnexplorer.io/api/account/b1");
}

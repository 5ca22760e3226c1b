use coinwatch::render::{
    format_coins_at, format_elapsed, format_timestamp, get_time_since_last_activity,
    render_address,
};
use coinwatch::store::{Address, ApiType, Coin, Coins};

#[test]
fn elapsed_zero_seconds() {
    assert_eq!(format_elapsed(0), "0 seconds");
}

#[test]
fn elapsed_minute_and_second() {
    assert_eq!(format_elapsed(61), "1 minute, 1 second");
}

#[test]
fn elapsed_hour_minute_second() {
    assert_eq!(format_elapsed(3661), "1 hour, 1 minute, 1 second");
}

#[test]
fn elapsed_day_hour_minute_second() {
    assert_eq!(format_elapsed(90061), "1 day, 1 hour, 1 minute, 1 second");
}

#[test]
fn elapsed_pluralizes_each_unit() {
    assert_eq!(
        format_elapsed(2 * 86400),
        "2 days, 0 hours, 0 minutes, 0 seconds"
    );
    assert_eq!(format_elapsed(2), "2 seconds");
    assert_eq!(format_elapsed(120), "2 minutes, 0 seconds");
}

#[test]
fn elapsed_future_timestamp_clamps_to_zero() {
    assert_eq!(get_time_since_last_activity(u64::MAX), "0 seconds");
}

#[test]
fn timestamp_formats_utc() {
    assert_eq!(format_timestamp(1700000000), "2023-11-14 22:13:20");
    assert_eq!(format_timestamp(0), "1970-01-01 00:00:00");
}

#[test]
fn timestamp_out_of_calendar_range_is_placeholder() {
    // The last representable second still renders; one past it does not.
    assert_eq!(format_timestamp(8210266876799), "+262142-12-31 23:59:59");
    assert_eq!(format_timestamp(8210266876800), "?");
    // Larger than chrono's maximum but still a positive i64.
    assert_eq!(format_timestamp(9000000000000000), "?");
    // Values that an i64 reinterpretation would wrap onto the calendar.
    assert_eq!(format_timestamp(9300000000000000000), "?");
    assert_eq!(format_timestamp(u64::MAX), "?");
}

#[test]
fn unset_fields_render_placeholders() {
    let a = Address {
        address: "addr1".to_string(),
        balance: None,
        last_activity_timestamp: None,
    };
    let v = render_address(ApiType::Chainz, "BTC", &a, 1000);
    assert_eq!(v.balance_display, "?");
    assert_eq!(v.timestamp_display, "?");
    assert_eq!(v.elapsed_display, "?");
    assert_eq!(v.address, "addr1");
    assert_eq!(v.link, "https://chainz.cryptoid.info/btc/address.dws?addr1.htm");
}

#[test]
fn set_fields_render_values() {
    let a = Address {
        address: "addr1".to_string(),
        balance: Some("1.5".to_string()),
        last_activity_timestamp: Some(1700000000),
    };
    let v = render_address(ApiType::Chainz, "BTC", &a, 1700000061);
    assert_eq!(v.balance_display, "1.5BTC");
    assert_eq!(v.timestamp_display, "2023-11-14 22:13:20");
    assert_eq!(v.elapsed_display, "1 minute, 1 second");
}

#[test]
fn blnscan_render_uses_its_links() {
    let a = Address {
        address: "xyz".to_string(),
        balance: None,
        last_activity_timestamp: None,
    };
    let v = render_address(ApiType::Blnscan, "BLN", &a, 0);
    assert_eq!(v.link, "https://blnexplorer.io/xyz");
}

#[test]
fn unrecognized_provider_renders_empty_icon_and_link() {
    let a = Address {
        address: "abc".to_string(),
        balance: None,
        last_activity_timestamp: None,
    };
    let coin = Coin {
        name: "Mystery".to_string(),
        ticker: "MYS".to_string(),
        api: ApiType::Unrecognized,
        addresses: vec![a],
    };
    let coins = Coins { coins: vec![coin] };
    let views = format_coins_at(&coins, 0);
    assert_eq!(views.len(), 1);
    assert_eq!(views[0].icon_url, "");
    assert_eq!(views[0].addresses[0].link, "");
    assert_eq!(views[0].addresses[0].balance_display, "?");
}

#[test]
fn coin_view_carries_icon_and_name() {
    let coin = Coin {
        name: "Bitcoin".to_string(),
        ticker: "BTC".to_string(),
        api: ApiType::Chainz,
        addresses: vec![Address {
            address: "a".to_string(),
            balance: None,
            last_activity_timestamp: None,
        }],
    };
    let coins = Coins { coins: vec![coin] };
    let views = format_coins_at(&coins, 0);
    assert_eq!(views[0].icon_url, "https://chainz.cryptoid.info/logo/btc.png");
    assert_eq!(views[0].name, "Bitcoin");
    assert_eq!(views[0].addresses.len(), 1);
}

use coinwatch::adapter::{blnscan_time, parse_response, request_url};
use coinwatch::numtext::parse_i64_dec;
use coinwatch::store::{ApiType, FetchError, ObservedActivity};

fn ok(r: Result<ObservedActivity, FetchError>) -> ObservedActivity {
    match r {
        Ok(o) => o,
        Err(_) => panic!("expected a parsed observation"),
    }
}

#[test]
fn chainz_full_response_observes_both_fields() {
    let o = ok(parse_response(
        ApiType::Chainz,
        "{\"balance\": 1.5, \"lastBlockTimestamp\": 1700000000}",
    ));
    assert_eq!(o.balance, Some("1.5".to_string()));
    assert_eq!(o.last_activity_timestamp, Some(1700000000));
}

#[test]
fn chainz_missing_balance_observes_only_timestamp() {
    let o = ok(parse_response(
        ApiType::Chainz,
        "{\"lastBlockTimestamp\": 123}",
    ));
    assert_eq!(o.balance, None);
    assert_eq!(o.last_activity_timestamp, Some(123));
}

#[test]
fn chainz_missing_timestamp_observes_only_balance() {
    let o = ok(parse_response(ApiType::Chainz, "{\"balance\": 21000000}"));
    assert_eq!(o.balance, Some("21000000".to_string()));
    assert_eq!(o.last_activity_timestamp, None);
}

#[test]
fn chainz_mistyped_fields_observe_nothing() {
    let o = ok(parse_response(
        ApiType::Chainz,
        "{\"balance\": \"lots\", \"lastBlockTimestamp\": true}",
    ));
    assert_eq!(o.balance, None);
    assert_eq!(o.last_activity_timestamp, None);
}

#[test]
fn non_json_body_is_invalid() {
    let r = parse_response(ApiType::Chainz, "service unavailable");
    assert!(matches!(r, Err(FetchError::InvalidBody)));
    let r = parse_response(ApiType::Blnscan, "<html></html>");
    assert!(matches!(r, Err(FetchError::InvalidBody)));
}

#[test]
fn blnscan_integer_time_is_observed() {
    let o = ok(parse_response(
        ApiType::Blnscan,
        "{\"txns\": [{\"time\": 1700000000}]}",
    ));
    assert_eq!(o.balance, None);
    assert_eq!(o.last_activity_timestamp, Some(1700000000));
}

#[test]
fn blnscan_string_time_matches_integer_time() {
    let from_int = ok(parse_response(
        ApiType::Blnscan,
        "{\"txns\": [{\"time\": 1700000000}]}",
    ));
    let from_text = ok(parse_response(
        ApiType::Blnscan,
        "{\"txns\": [{\"time\": \"1700000000\"}]}",
    ));
    assert_eq!(from_int.last_activity_timestamp, Some(1700000000));
    assert_eq!(
        from_text.last_activity_timestamp,
        from_int.last_activity_timestamp
    );
}

#[test]
fn blnscan_unparseable_time_observes_nothing() {
    let o = ok(parse_response(
        ApiType::Blnscan,
        "{\"txns\": [{\"time\": \"12ab\"}]}",
    ));
    assert_eq!(o.last_activity_timestamp, None);
    let o = ok(parse_response(ApiType::Blnscan, "{\"txns\": []}"));
    assert_eq!(o.last_activity_timestamp, None);
    let o = ok(parse_response(ApiType::Blnscan, "{}"));
    assert_eq!(o.last_activity_timestamp, None);
}

#[test]
fn blnscan_never_observes_a_balance() {
    let o = ok(parse_response(
        ApiType::Blnscan,
        "{\"txns\": [{\"time\": 1}], \"balance\": 7}",
    ));
    assert_eq!(o.balance, None);
}

#[test]
fn unrecognized_provider_observes_nothing() {
    let o = ok(parse_response(ApiType::Unrecognized, "not even json"));
    assert_eq!(o.balance, None);
    assert_eq!(o.last_activity_timestamp, None);
}

#[test]
fn blnscan_time_prefers_the_integer_form() {
    assert_eq!(blnscan_time(Some(5), Some(b"7".to_vec())), Some(5));
    assert_eq!(blnscan_time(None, Some(b"7".to_vec())), Some(7));
    assert_eq!(blnscan_time(None, None), None);
}

#[test]
fn decimal_parse_accepts_signs_and_bounds() {
    assert_eq!(parse_i64_dec(b"0"), Some(0));
    assert_eq!(parse_i64_dec(b"-42"), Some(-42));
    assert_eq!(parse_i64_dec(b"+17"), Some(17));
    assert_eq!(parse_i64_dec(b"9223372036854775807"), Some(i64::MAX));
    assert_eq!(parse_i64_dec(b"-9223372036854775808"), Some(i64::MIN));
}

#[test]
fn decimal_parse_rejects_junk_and_overflow() {
    assert_eq!(parse_i64_dec(b""), None);
    assert_eq!(parse_i64_dec(b"+"), None);
    assert_eq!(parse_i64_dec(b"-"), None);
    assert_eq!(parse_i64_dec(b"12a"), None);
    assert_eq!(parse_i64_dec(b" 1"), None);
    assert_eq!(parse_i64_dec(b"9223372036854775808"), None);
    assert_eq!(parse_i64_dec(b"-9223372036854775809"), None);
}

#[test]
fn request_urls_lowercase_the_ticker() {
    assert_eq!(
        request_url(ApiType::Chainz, "BTC", "addr1"),
        "https://chainz.cryptoid.info/btc/api.dws?q=addressinfo&a=addr1"
    );
    assert_eq!(
        request_url(ApiType::Blnscan, "BLN", "addr2"),
        "https://blnexplorer.io/api/account/addr2"
    );
    assert_eq!(request_url(ApiType::Unrecognized, "X", "y"), "");
}

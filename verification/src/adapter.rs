//! Provider adapters: one capability set per explorer API. Each adapter
//! builds the request, link and icon URLs for an address and normalizes a
//! response body into an `ObservedActivity`. A missing or mistyped field
//! degrades to "field not observed"; only a body that is not JSON at all is
//! a fetch error.

use vstd::prelude::*;
use vstd::string::StringExecFns;

use crate::json::{
    is_json_value, json_as_i64, json_as_str_bytes, json_doc_of, json_element_of, json_get,
    json_get_index, json_int_of, json_member_of, json_num_text_of, json_number_display,
    json_str_bytes_of, parse_json,
};
use crate::numtext::spec_parse_i64;
use crate::numtext::parse_i64_dec;
use crate::store::{ApiType, FetchError, ObservedActivity};

verus! {

/// What str::to_lowercase returns: a function of the characters alone.
pub uninterp spec fn lower_of(s: Seq<char>) -> Seq<char>;

/// Relies on str::to_lowercase: the result depends on the characters alone;
/// an empty string stays empty.
#[verifier::external_body]
fn lowercase(s: &str) -> (r: String)
    ensures
        r@ == lower_of(s@),
        s@.len() == 0 ==> r@.len() == 0,
{
    s.to_lowercase()
}

/// The URL an adapter fetches for one address. The unrecognized provider has
/// no endpoint: its URL is empty and nothing is fetched.
pub open spec fn spec_request_url(api: ApiType, ticker: Seq<char>, address: Seq<char>) -> Seq<
    char,
> {
    match api {
        ApiType::Chainz => "https://chainz.cryptoid.info/"@ + lower_of(ticker)
            + "/api.dws?q=addressinfo&a="@ + address,
        ApiType::Blnscan => "https://blnexplorer.io/api/account/"@ + address,
        ApiType::Unrecognized => Seq::<char>::empty(),
    }
}

/// The explorer page link shown for one address; empty for an unrecognized
/// provider.
pub open spec fn spec_link_url(api: ApiType, ticker: Seq<char>, address: Seq<char>) -> Seq<char> {
    match api {
        ApiType::Chainz => "https://chainz.cryptoid.info/"@ + lower_of(ticker) + "/address.dws?"@
            + address + ".htm"@,
        ApiType::Blnscan => "https://blnexplorer.io/"@ + address,
        ApiType::Unrecognized => Seq::<char>::empty(),
    }
}

/// The provider icon shown for a coin; empty for an unrecognized provider.
pub open spec fn spec_icon_url(api: ApiType, ticker: Seq<char>) -> Seq<char> {
    match api {
        ApiType::Chainz => "https://chainz.cryptoid.info/logo/"@ + lower_of(ticker) + ".png"@,
        ApiType::Blnscan => "https://blnexplorer.io/favicon.ico"@,
        ApiType::Unrecognized => Seq::<char>::empty(),
    }
}

/// Builds the fetch URL for one address of one coin.
pub fn request_url(api: ApiType, ticker: &str, address: &str) -> (r: String)
    ensures
        r@ == spec_request_url(api, ticker@, address@),
{
    match api {
        ApiType::Chainz => {
            let mut s = String::from_str("https://chainz.cryptoid.info/");
            let low = lowercase(ticker);
            s.append(low.as_str());
            s.append("/api.dws?q=addressinfo&a=");
            s.append(address);
            proof {
                assert(s@ =~= spec_request_url(api, ticker@, address@));
            }
            s
        },
        ApiType::Blnscan => {
            let mut s = String::from_str("https://blnexplorer.io/api/account/");
            s.append(address);
            s
        },
        ApiType::Unrecognized => {
            let s = String::new();
            proof {
                assert(s@ =~= spec_request_url(api, ticker@, address@));
            }
            s
        },
    }
}

/// Builds the explorer link for one address of one coin.
pub fn link_url(api: ApiType, ticker: &str, address: &str) -> (r: String)
    ensures
        r@ == spec_link_url(api, ticker@, address@),
{
    match api {
        ApiType::Chainz => {
            let mut s = String::from_str("https://chainz.cryptoid.info/");
            let low = lowercase(ticker);
            s.append(low.as_str());
            s.append("/address.dws?");
            s.append(address);
            s.append(".htm");
            proof {
                assert(s@ =~= spec_link_url(api, ticker@, address@));
            }
            s
        },
        ApiType::Blnscan => {
            let mut s = String::from_str("https://blnexplorer.io/");
            s.append(address);
            s
        },
        ApiType::Unrecognized => {
            let s = String::new();
            proof {
                assert(s@ =~= spec_link_url(api, ticker@, address@));
            }
            s
        },
    }
}

/// Builds the provider icon URL for one coin.
pub fn icon_url(api: ApiType, ticker: &str) -> (r: String)
    ensures
        r@ == spec_icon_url(api, ticker@),
{
    match api {
        ApiType::Chainz => {
            let mut s = String::from_str("https://chainz.cryptoid.info/logo/");
            let low = lowercase(ticker);
            s.append(low.as_str());
            s.append(".png");
            proof {
                assert(s@ =~= spec_icon_url(api, ticker@));
            }
            s
        },
        ApiType::Blnscan => String::from_str("https://blnexplorer.io/favicon.ico"),
        ApiType::Unrecognized => {
            let s = String::new();
            proof {
                assert(s@ =~= spec_icon_url(api, ticker@));
            }
            s
        },
    }
}

/// The Blnscan timestamp rule: a native integer is taken as it stands; a
/// string is accepted when it parses as a decimal integer; anything else is
/// not observed. The stored value is the integer reinterpreted as `u64`.
pub open spec fn spec_blnscan_time(int_form: Option<i64>, text_form: Option<Seq<u8>>) -> Option<
    u64,
> {
    match int_form {
        Option::Some(n) => Option::Some(n as u64),
        Option::None => match text_form {
            Option::Some(s) => match spec_parse_i64(s) {
                Option::Some(n) => Option::Some(n as u64),
                Option::None => Option::None,
            },
            Option::None => Option::None,
        },
    }
}

/// Decides the Blnscan activity timestamp from the two forms the `time`
/// field may take.
pub fn blnscan_time(int_form: Option<i64>, text_form: Option<Vec<u8>>) -> (r: Option<u64>)
    ensures
        r == spec_blnscan_time(
            int_form,
            match text_form {
                Option::Some(v) => Option::Some(v@),
                Option::None => Option::None::<Seq<u8>>,
            },
        ),
{
    match int_form {
        Option::Some(n) => Option::Some(n as u64),
        Option::None => match text_form {
            Option::Some(v) => match parse_i64_dec(v.as_slice()) {
                Option::Some(n) => Option::Some(n as u64),
                Option::None => Option::None,
            },
            Option::None => Option::None,
        },
    }
}

/// Law: a Blnscan `time` field carried as a JSON integer and the same value
/// carried as decimal text produce the same stored timestamp.
pub proof fn lemma_blnscan_time_forms(n: i64, text: Seq<u8>, other_text: Option<Seq<u8>>)
    requires
        spec_parse_i64(text) == Option::Some(n),
    ensures
        spec_blnscan_time(Option::Some(n), other_text) == spec_blnscan_time(
            Option::None,
            Option::Some(text),
        ),
{
}

/// Pairs the two optional Chainz fields into one observation: the balance
/// text as extracted, the timestamp reinterpreted as `u64`.
pub fn chainz_observed(balance: Option<String>, timestamp: Option<i64>) -> (r: ObservedActivity)
    ensures
        r.balance == balance,
        r.last_activity_timestamp == (match timestamp {
            Option::Some(t) => Option::Some(t as u64),
            Option::None => Option::None::<u64>,
        }),
{
    ObservedActivity {
        balance,
        last_activity_timestamp: match timestamp {
            Option::Some(t) => Option::Some(t as u64),
            Option::None => Option::None,
        },
    }
}

/// The balance a Chainz document carries: the decimal text of its `balance`
/// member, when that member exists and is a number.
pub open spec fn spec_chainz_balance(doc: serde_json::Value) -> Option<Seq<char>> {
    match json_member_of(doc, "balance"@) {
        Option::Some(m) => json_num_text_of(m),
        Option::None => Option::None,
    }
}

/// The activity timestamp a Chainz document carries: its
/// `lastBlockTimestamp` member as an integer, reinterpreted as `u64`, when
/// that member exists and is an integer.
pub open spec fn spec_chainz_timestamp(doc: serde_json::Value) -> Option<u64> {
    match json_member_of(doc, "lastBlockTimestamp"@) {
        Option::Some(m) => match json_int_of(m) {
            Option::Some(n) => Option::Some(n as u64),
            Option::None => Option::None,
        },
        Option::None => Option::None,
    }
}

/// The `time` value of the first transaction of a Blnscan document, when the
/// document has a `txns` array with a first element carrying one.
pub open spec fn spec_blnscan_time_field(doc: serde_json::Value) -> Option<serde_json::Value> {
    match json_member_of(doc, "txns"@) {
        Option::Some(txns) => match json_element_of(txns, 0) {
            Option::Some(first) => json_member_of(first, "time"@),
            Option::None => Option::None,
        },
        Option::None => Option::None,
    }
}

/// The activity timestamp a Blnscan document carries: the `time` value of
/// its first transaction, under the two-form rule of `spec_blnscan_time`.
pub open spec fn spec_blnscan_timestamp(doc: serde_json::Value) -> Option<u64> {
    match spec_blnscan_time_field(doc) {
        Option::Some(t) => spec_blnscan_time(json_int_of(t), json_str_bytes_of(t)),
        Option::None => Option::None,
    }
}

/// Normalizes one Chainz-style response body: a numeric `balance` member and
/// an integer `lastBlockTimestamp` member, each optional. Fails exactly on a
/// body that is not a JSON document, and otherwise observes exactly what the
/// document carries.
pub fn parse_chainz(body: &str) -> (r: Result<ObservedActivity, FetchError>)
    ensures
        (r is Err) <==> !is_json_value(body@),
        r is Err ==> r->Err_0 == FetchError::InvalidBody,
        r matches Ok(o) ==> o@.balance == spec_chainz_balance(json_doc_of(body@))
            && o@.last_activity_timestamp == spec_chainz_timestamp(json_doc_of(body@)),
{
    match parse_json(body) {
        Option::None => Err(FetchError::InvalidBody),
        Option::Some(v) => {
            let balance = match json_get(&v, "balance") {
                Option::Some(b) => json_number_display(b),
                Option::None => Option::None,
            };
            let timestamp = match json_get(&v, "lastBlockTimestamp") {
                Option::Some(t) => json_as_i64(t),
                Option::None => Option::None,
            };
            Ok(chainz_observed(balance, timestamp))
        },
    }
}

/// Normalizes one Blnscan-style response body: the `time` field of the first
/// entry of the `txns` array, as integer or decimal text. Blnscan never
/// supplies a balance. Fails exactly on a body that is not a JSON document,
/// and otherwise observes exactly the timestamp the document carries.
pub fn parse_blnscan(body: &str) -> (r: Result<ObservedActivity, FetchError>)
    ensures
        (r is Err) <==> !is_json_value(body@),
        r is Err ==> r->Err_0 == FetchError::InvalidBody,
        r matches Ok(o) ==> o.balance is None && o@.last_activity_timestamp
            == spec_blnscan_timestamp(json_doc_of(body@)),
{
    match parse_json(body) {
        Option::None => Err(FetchError::InvalidBody),
        Option::Some(v) => {
            let time_field = match json_get(&v, "txns") {
                Option::Some(txns) => match json_get_index(txns, 0) {
                    Option::Some(first) => json_get(first, "time"),
                    Option::None => Option::None,
                },
                Option::None => Option::None,
            };
            let ts = match time_field {
                Option::Some(t) => blnscan_time(json_as_i64(t), json_as_str_bytes(t)),
                Option::None => Option::None,
            };
            Ok(ObservedActivity { balance: Option::None, last_activity_timestamp: ts })
        },
    }
}

/// Normalizes one response body with the adapter the coin's provider calls
/// for. The unrecognized provider observes nothing and never fails.
pub fn parse_response(api: ApiType, body: &str) -> (r: Result<ObservedActivity, FetchError>)
    ensures
        api != ApiType::Unrecognized ==> ((r is Err) <==> !is_json_value(body@)),
        r is Err ==> r->Err_0 == FetchError::InvalidBody,
        api == ApiType::Chainz ==> (r matches Ok(o) ==> o@.balance == spec_chainz_balance(
            json_doc_of(body@),
        ) && o@.last_activity_timestamp == spec_chainz_timestamp(json_doc_of(body@))),
        api == ApiType::Blnscan ==> (r matches Ok(o) ==> o.balance is None
            && o@.last_activity_timestamp == spec_blnscan_timestamp(json_doc_of(body@))),
        api == ApiType::Unrecognized ==> (r matches Ok(o) && o.balance is None
            && o.last_activity_timestamp is None),
{
    match api {
        ApiType::Chainz => parse_chainz(body),
        ApiType::Blnscan => parse_blnscan(body),
        ApiType::Unrecognized => Ok(
            ObservedActivity { balance: Option::None, last_activity_timestamp: Option::None },
        ),
    }
}

} // verus!

//! The view renderer: derives, from a registry snapshot and the current time,
//! the display fields the page shows per coin and per address. Unset or
//! unconvertible values degrade to the placeholder `"?"`; a provider the
//! crate does not recognize gets empty icon and link strings.

use vstd::prelude::*;
use vstd::string::StringExecFns;

use crate::adapter::{icon_url, link_url, spec_icon_url, spec_link_url};
use crate::numtext::{dec_of_u64, spec_dec};
use crate::store::{Address, AddressModel, ApiType, Coin, CoinModel, Coins};

verus! {

/// The earliest epoch second chrono can place on its calendar.
pub const MIN_FORMATTABLE_SECS: i64 = -8334601228800;

/// The latest epoch second chrono can place on its calendar.
pub const MAX_FORMATTABLE_SECS: i64 = 8210266876799;

/// What chrono renders for an epoch second in UTC with the pattern
/// `%Y-%m-%d %H:%M:%S`: a function of the seconds alone.
pub uninterp spec fn ymd_hms_of(secs: i64) -> Seq<char>;

/// Relies on chrono's DateTime::<Utc>::from_timestamp, which is `Some`
/// exactly on [MIN_FORMATTABLE_SECS, MAX_FORMATTABLE_SECS], and on its
/// `format` with `%Y-%m-%d %H:%M:%S`, whose text depends on the epoch
/// seconds alone and spells every field out (the year zero-padded to four
/// digits), so it is never shorter than the pattern's nineteen characters.
#[verifier::external_body]
fn chrono_ymd_hms(secs: i64) -> (r: Option<String>)
    ensures
        (r is Some) <==> MIN_FORMATTABLE_SECS <= secs <= MAX_FORMATTABLE_SECS,
        r matches Some(text) ==> text@ == ymd_hms_of(secs) && text@.len() >= 19,
{
    chrono::DateTime::<chrono::Utc>::from_timestamp(secs, 0).map(
        |dt| dt.format("%Y-%m-%d %H:%M:%S").to_string(),
    )
}

/// Relies on std's SystemTime::now and duration_since: the seconds since the
/// Unix epoch. Nothing is assumed of the value; a clock before the epoch
/// reads as zero.
#[verifier::external_body]
fn now_unix_secs() -> u64 {
    std::time::SystemTime::now().duration_since(std::time::UNIX_EPOCH).map(
        |d| d.as_secs(),
    ).unwrap_or(0)
}

/// The absolute-timestamp display: the stored epoch second placed on the
/// calendar, or `"?"` for any value past the last representable one.
pub open spec fn spec_format_timestamp(t: u64) -> Seq<char> {
    if t <= MAX_FORMATTABLE_SECS as u64 {
        ymd_hms_of(t as i64)
    } else {
        "?"@
    }
}

/// Formats a stored activity timestamp as `YYYY-MM-DD HH:MM:SS` in UTC, or
/// `"?"` when it cannot be placed on the calendar; it is never `"?"` for a
/// representable timestamp.
pub fn format_timestamp(timestamp: u64) -> (r: String)
    ensures
        r@ == spec_format_timestamp(timestamp),
        timestamp <= MAX_FORMATTABLE_SECS as u64 ==> r@ != "?"@,
{
    if timestamp <= 8210266876799 {
        match chrono_ymd_hms(timestamp as i64) {
            Option::Some(text) => {
                proof {
                    reveal_strlit("?");
                }
                text
            },
            Option::None => String::from_str("?"),
        }
    } else {
        String::from_str("?")
    }
}

/// One elapsed unit: the count, the unit's name, and a plural `s` unless the
/// count is exactly one.
pub open spec fn spec_unit_part(n: u64, unit: Seq<char>) -> Seq<char> {
    spec_dec(n as nat) + unit + (if n == 1 {
        Seq::<char>::empty()
    } else {
        "s"@
    })
}

/// The elapsed-time sentence: all units from the largest non-zero one down
/// to seconds, comma-separated; just the seconds when less than a minute has
/// passed.
pub open spec fn spec_elapsed(total: u64) -> Seq<char> {
    let days = total / 86400;
    let hours = (total % 86400) / 3600;
    let minutes = (total % 3600) / 60;
    let seconds = total % 60;
    if days > 0 {
        spec_unit_part(days, " day"@) + ", "@ + spec_unit_part(hours, " hour"@) + ", "@
            + spec_unit_part(minutes, " minute"@) + ", "@ + spec_unit_part(seconds, " second"@)
    } else if hours > 0 {
        spec_unit_part(hours, " hour"@) + ", "@ + spec_unit_part(minutes, " minute"@) + ", "@
            + spec_unit_part(seconds, " second"@)
    } else if minutes > 0 {
        spec_unit_part(minutes, " minute"@) + ", "@ + spec_unit_part(seconds, " second"@)
    } else {
        spec_unit_part(seconds, " second"@)
    }
}

/// How long ago `last` was, seen from `now`; a timestamp in the future
/// counts as no elapsed time at all.
pub open spec fn spec_elapsed_secs(now: u64, last: u64) -> u64 {
    if now >= last {
        (now - last) as u64
    } else {
        0
    }
}

fn unit_part(n: u64, unit: &str) -> (r: String)
    ensures
        r@ == spec_unit_part(n, unit@),
{
    let mut s = dec_of_u64(n);
    s.append(unit);
    if n != 1 {
        s.append("s");
    }
    proof {
        assert(s@ =~= spec_unit_part(n, unit@));
    }
    s
}

/// Renders a number of elapsed seconds as the human-readable sentence, days
/// down to seconds.
pub fn format_elapsed(total: u64) -> (r: String)
    ensures
        r@ == spec_elapsed(total),
{
    let days = total / 86400;
    let hours = (total % 86400) / 3600;
    let minutes = (total % 3600) / 60;
    let seconds = total % 60;
    if days > 0 {
        let mut s = unit_part(days, " day");
        s.append(", ");
        let h = unit_part(hours, " hour");
        s.append(h.as_str());
        s.append(", ");
        let m = unit_part(minutes, " minute");
        s.append(m.as_str());
        s.append(", ");
        let sec = unit_part(seconds, " second");
        s.append(sec.as_str());
        proof {
            assert(s@ =~= spec_elapsed(total));
        }
        s
    } else if hours > 0 {
        let mut s = unit_part(hours, " hour");
        s.append(", ");
        let m = unit_part(minutes, " minute");
        s.append(m.as_str());
        s.append(", ");
        let sec = unit_part(seconds, " second");
        s.append(sec.as_str());
        proof {
            assert(s@ =~= spec_elapsed(total));
        }
        s
    } else if minutes > 0 {
        let mut s = unit_part(minutes, " minute");
        s.append(", ");
        let sec = unit_part(seconds, " second");
        s.append(sec.as_str());
        proof {
            assert(s@ =~= spec_elapsed(total));
        }
        s
    } else {
        unit_part(seconds, " second")
    }
}

fn elapsed_secs(now: u64, last: u64) -> (r: u64)
    ensures
        r == spec_elapsed_secs(now, last),
{
    if now >= last {
        now - last
    } else {
        0
    }
}

/// How long ago the given activity timestamp lies, measured against the
/// clock at the moment of the call.
pub fn get_time_since_last_activity(last_timestamp: u64) -> (r: String)
    ensures
        exists|now: u64| r@ == spec_elapsed(#[trigger] spec_elapsed_secs(now, last_timestamp)),
{
    let now = now_unix_secs();
    let r = format_elapsed(elapsed_secs(now, last_timestamp));
    proof {
        assert(r@ == spec_elapsed(spec_elapsed_secs(now, last_timestamp)));
    }
    r
}

/// The display fields for one address.
pub struct AddressView {
    pub link: String,
    pub address: String,
    pub balance_display: String,
    pub timestamp_display: String,
    pub elapsed_display: String,
}

/// The display fields for one coin.
pub struct CoinView {
    pub icon_url: String,
    pub name: String,
    pub addresses: Vec<AddressView>,
}

/// Mathematical value of an `AddressView`.
#[verifier::ext_equal]
pub struct AddressViewModel {
    pub link: Seq<char>,
    pub address: Seq<char>,
    pub balance_display: Seq<char>,
    pub timestamp_display: Seq<char>,
    pub elapsed_display: Seq<char>,
}

/// Mathematical value of a `CoinView`.
#[verifier::ext_equal]
pub struct CoinViewModel {
    pub icon_url: Seq<char>,
    pub name: Seq<char>,
    pub addresses: Seq<AddressViewModel>,
}

impl View for AddressView {
    type V = AddressViewModel;

    open spec fn view(&self) -> AddressViewModel {
        AddressViewModel {
            link: self.link@,
            address: self.address@,
            balance_display: self.balance_display@,
            timestamp_display: self.timestamp_display@,
            elapsed_display: self.elapsed_display@,
        }
    }
}

impl View for CoinView {
    type V = CoinViewModel;

    open spec fn view(&self) -> CoinViewModel {
        CoinViewModel {
            icon_url: self.icon_url@,
            name: self.name@,
            addresses: self.addresses@.map_values(|a: AddressView| a@),
        }
    }
}

/// The balance display: the observed decimal text with the ticker
/// concatenated directly after it, or `"?"` while no balance has been
/// observed.
pub open spec fn spec_balance_display(balance: Option<Seq<char>>, ticker: Seq<char>) -> Seq<
    char,
> {
    match balance {
        Option::Some(b) => b + ticker,
        Option::None => "?"@,
    }
}

/// The absolute-timestamp display, `"?"` while none has been observed.
pub open spec fn spec_timestamp_display(ts: Option<u64>) -> Seq<char> {
    match ts {
        Option::Some(t) => spec_format_timestamp(t),
        Option::None => "?"@,
    }
}

/// The elapsed-time display, `"?"` while no timestamp has been observed.
pub open spec fn spec_elapsed_display(ts: Option<u64>, now: u64) -> Seq<char> {
    match ts {
        Option::Some(t) => spec_elapsed(spec_elapsed_secs(now, t)),
        Option::None => "?"@,
    }
}

/// Every display field of one address, as a function of the coin's provider
/// and ticker, the address state, and the current time.
pub open spec fn spec_address_view(
    api: ApiType,
    ticker: Seq<char>,
    a: AddressModel,
    now: u64,
) -> AddressViewModel {
    AddressViewModel {
        link: spec_link_url(api, ticker, a.address),
        address: a.address,
        balance_display: spec_balance_display(a.balance, ticker),
        timestamp_display: spec_timestamp_display(a.last_activity_timestamp),
        elapsed_display: spec_elapsed_display(a.last_activity_timestamp, now),
    }
}

/// Every display field of one coin.
pub open spec fn spec_coin_view(c: CoinModel, now: u64) -> CoinViewModel {
    CoinViewModel {
        icon_url: spec_icon_url(c.api, c.ticker),
        name: c.name,
        addresses: c.addresses.map_values(|a: AddressModel| spec_address_view(c.api, c.ticker, a, now)),
    }
}

/// Whether `views` is the rendering of `coins` as seen at time `now`.
pub open spec fn spec_rendered(
    coins: Seq<CoinModel>,
    views: Seq<CoinViewModel>,
    now: u64,
) -> bool {
    &&& views.len() == coins.len()
    &&& forall|i: int| 0 <= i < coins.len() ==> #[trigger] views[i] == spec_coin_view(coins[i], now)
}

/// Renders one address.
pub fn render_address(api: ApiType, ticker: &str, a: &Address, now: u64) -> (r: AddressView)
    ensures
        r@ == spec_address_view(api, ticker@, a@, now),
{
    let link = link_url(api, ticker, a.address.as_str());
    let address = a.address.clone();
    let balance_display = match &a.balance {
        Option::Some(b) => {
            let mut s = b.clone();
            s.append(ticker);
            proof {
                assert(s@ =~= spec_balance_display(a@.balance, ticker@));
            }
            s
        },
        Option::None => String::from_str("?"),
    };
    let timestamp_display = match a.last_activity_timestamp {
        Option::Some(t) => format_timestamp(t),
        Option::None => String::from_str("?"),
    };
    let elapsed_display = match a.last_activity_timestamp {
        Option::Some(t) => format_elapsed(elapsed_secs(now, t)),
        Option::None => String::from_str("?"),
    };
    let r = AddressView { link, address, balance_display, timestamp_display, elapsed_display };
    proof {
        assert(r@ =~= spec_address_view(api, ticker@, a@, now));
    }
    r
}

/// Renders every address of one coin, in configuration order.
pub fn format_addresses(coin: &Coin, now: u64) -> (r: Vec<AddressView>)
    ensures
        r@.len() == coin@.addresses.len(),
        forall|j: int|
            0 <= j < coin@.addresses.len() ==> #[trigger] r@[j]@ == spec_address_view(
                coin@.api,
                coin@.ticker,
                coin@.addresses[j],
                now,
            ),
{
    let mut out: Vec<AddressView> = Vec::new();
    let mut j: usize = 0;
    while j < coin.addresses.len()
        invariant
            j <= coin@.addresses.len(),
            out@.len() == j,
            forall|k: int|
                0 <= k < j ==> #[trigger] out@[k]@ == spec_address_view(
                    coin@.api,
                    coin@.ticker,
                    coin@.addresses[k],
                    now,
                ),
        decreases coin@.addresses.len() - j,
    {
        let v = render_address(coin.api, coin.ticker.as_str(), &coin.addresses[j], now);
        out.push(v);
        j = j + 1;
    }
    out
}

/// Renders the whole registry as seen at time `now`.
pub fn format_coins_at(coins: &Coins, now: u64) -> (r: Vec<CoinView>)
    ensures
        spec_rendered(coins@, r@.map_values(|v: CoinView| v@), now),
{
    let mut out: Vec<CoinView> = Vec::new();
    let mut i: usize = 0;
    while i < coins.coins.len()
        invariant
            i <= coins@.len(),
            out@.len() == i,
            forall|k: int|
                0 <= k < i ==> #[trigger] out@[k]@ == spec_coin_view(coins@[k], now),
        decreases coins@.len() - i,
    {
        let coin = &coins.coins[i];
        let addresses = format_addresses(coin, now);
        let v = CoinView {
            icon_url: icon_url(coin.api, coin.ticker.as_str()),
            name: coin.name.clone(),
            addresses,
        };
        proof {
            assert(v@.addresses =~= spec_coin_view(coins@[i as int], now).addresses);
            assert(v@ =~= spec_coin_view(coins@[i as int], now));
        }
        out.push(v);
        i = i + 1;
    }
    proof {
        let views = out@.map_values(|v: CoinView| v@);
        assert(forall|k: int| 0 <= k < coins@.len() ==> #[trigger] views[k] == spec_coin_view(coins@[k], now));
    }
    out
}

/// Whether the view values `r` are the rendering of `coins` at time `now`.
pub open spec fn spec_rendered_views(coins: Seq<CoinModel>, r: Seq<CoinView>, now: u64) -> bool {
    spec_rendered(coins, r.map_values(|v: CoinView| v@), now)
}

/// Renders the whole registry against the clock at the moment of the call.
pub fn format_coins(coins: &Coins) -> (r: Vec<CoinView>)
    ensures
        exists|now: u64| #[trigger] spec_rendered_views(coins@, r@, now),
{
    let now = now_unix_secs();
    let r = format_coins_at(coins, now);
    proof {
        assert(spec_rendered_views(coins@, r@, now));
    }
    r
}

} // verus!
